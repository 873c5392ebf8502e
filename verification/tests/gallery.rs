use shape_gallery::color::{Color, Pastel};
use shape_gallery::fixed::Fixed;
use shape_gallery::gallery::{
    bubbles_exhibit, cell_offset, compose, draw_bubble, draw_cell, draw_gon, draw_position,
    exhibit_at, gallery, meter_exhibit, pulse_exhibit, rect_exhibit, run_exhibit, swell,
    sweep_exhibit, tiling_exhibit, wave, Exhibit, BOUNDS, HEX_RADIUS, MOST_SHAPES_IN_A_CELL, PERIOD,
};
use shape_gallery::painter::Painter;
use shape_gallery::shape::{Cap, DrawCommand, Geometry, Style};
use shape_gallery::transform::Transform;
use shape_gallery::trig::{HALF_PI, PI, TAU};
use shape_gallery::vector::{Quat, Vec2, Vec3, Vec4};

fn fx(raw: i64) -> Fixed {
    Fixed { raw }
}

fn v3(x: i64, y: i64, z: i64) -> Vec3 {
    Vec3 { x: fx(x), y: fx(y), z: fx(z) }
}

fn rgba(red: i64, green: i64, blue: i64, alpha: i64) -> Color {
    Color { red: fx(red), green: fx(green), blue: fx(blue), alpha: fx(alpha) }
}

fn at(x: i64, y: i64, z: i64) -> Transform {
    Transform {
        translation: v3(x, y, z),
        orientation: Quat::identity(),
        rotation: fx(0),
        scale: v3(1_000_000, 1_000_000, 1_000_000),
    }
}

const ALL: [Exhibit; 11] = [
    Exhibit::Line,
    Exhibit::Rect,
    Exhibit::Circles,
    Exhibit::Pulse,
    Exhibit::Bubbles,
    Exhibit::Arcs,
    Exhibit::Sweep,
    Exhibit::Meter,
    Exhibit::Polygons,
    Exhibit::Morph,
    Exhibit::Tiling,
];

#[test]
fn the_first_cell_holds_one_round_capped_line() {
    let commands = compose(fx(0), 0..1);
    assert_eq!(
        commands,
        vec![DrawCommand {
            transform: at(-8_000_000, 4_000_000, 0),
            color: rgba(560_000, 560_000, 1_104_000, 2_000_000),
            thickness: fx(100_000),
            hollow: true,
            geometry: Geometry::Segment {
                start: v3(-1_000_000, -1_000_000, 0),
                end: v3(1_000_000, -1_000_000, 0),
                cap: Cap::Round,
            },
        }]
    );
    assert_eq!(commands[0].color, Color::midnight_blue().pastel().scaled(Fixed::from_millis(1600)));
}

#[test]
fn the_morphing_polygon_at_three_sides_has_three_rounded_corners() {
    let commands = compose(fx(3 * HALF_PI), 9..10);
    assert_eq!(commands.len(), 1);
    let command = commands[0];
    assert_eq!(command.transform, at(8_000_000, 0, 0));
    assert_eq!(command.color, rgba(750_000, 250_000, 750_000, 2_000_000));
    assert_eq!(command.thickness, fx(500_000));
    assert!(command.hollow);
    let polygon = match command.geometry {
        Geometry::Polygon(polygon) => polygon,
        other => panic!("not a polygon: {:?}", other),
    };
    assert_eq!(polygon.sides, fx(3_000_000));
    assert_eq!(polygon.radius, fx(1_500_000));
    assert_eq!(polygon.corners, 3);
    assert_eq!(polygon.central_angle, fx(TAU / 3));
    assert_eq!(polygon.apothem, fx(750_000));
    assert_eq!(polygon.corner_radius, fx(375_000));
    assert_eq!(polygon.corner_radius, Fixed::from_millis(500).times(polygon.apothem));

    let tips = [polygon.vertex(0), polygon.vertex(1), polygon.vertex(2)];
    assert_eq!(tips[0], Vec2 { x: fx(0), y: fx(1_500_000) });
    assert_eq!(tips[1], Vec2 { x: fx(1_299_039), y: fx(-750_000) });
    assert_eq!(tips[2], Vec2 { x: fx(-1_299_039), y: fx(-750_000) });
    for k in 0..3 {
        let a = tips[k];
        let b = tips[(k + 1) % 3];
        let c = tips[(k + 2) % 3];
        let turn = (b.x.raw - a.x.raw) as i128 * (c.y.raw - b.y.raw) as i128
            - (b.y.raw - a.y.raw) as i128 * (c.x.raw - b.x.raw) as i128;
        assert!(turn < 0, "the corners turn the same way all round");
    }
}

#[test]
fn the_morphing_polygon_reaches_nine_sides() {
    let commands = compose(fx(HALF_PI), 9..10);
    match commands[0].geometry {
        Geometry::Polygon(polygon) => {
            assert_eq!(polygon.sides, fx(9_000_000));
            assert_eq!(polygon.corners, 9);
        }
        other => panic!("not a polygon: {:?}", other),
    }
}

#[test]
fn the_gallery_repeats_after_one_period() {
    assert_eq!(PERIOD, 2 * TAU);
    let times =
        [0, 1, 999_999, 1_000_000, HALF_PI, PI, 5_000_000, PERIOD - 1, PERIOD, 7 * PERIOD + 3];
    for t in times {
        assert_eq!(compose(fx(t), 0..15), compose(fx(t + PERIOD), 0..15), "at {}", t);
    }
}

#[test]
fn every_exhibit_repeats_after_one_period() {
    for index in 0..15 {
        for t in [0, 123_456, 3_000_000, 9_999_999] {
            assert_eq!(
                compose(fx(t), index..index + 1),
                compose(fx(t + 3 * PERIOD), index..index + 1),
                "cell {} at {}",
                index,
                t
            );
        }
    }
}

#[test]
fn the_gallery_repeats_before_time_zero_too() {
    for t in [-1, -1_000_000, -11_566_376, -PERIOD, -PERIOD - 1, -9 * PERIOD + 5, i64::MIN] {
        assert_eq!(compose(fx(t), 0..15), compose(fx(t + PERIOD), 0..15), "at {}", t);
    }
    assert_eq!(compose(fx(-11_566_376), 12..13), compose(fx(1_000_000), 12..13));
    assert_eq!(compose(fx(-11_566_376), 12..13).len(), 5);
}

#[test]
fn the_gallery_moves_with_the_time() {
    assert_ne!(compose(fx(0), 6..7), compose(fx(1_000_000), 6..7));
    assert_eq!(compose(fx(0), 0..1), compose(fx(1_000_000), 0..1));
}

#[test]
fn cells_lie_on_a_grid_of_five_columns() {
    assert_eq!(cell_offset(0), v3(-8_000_000, 4_000_000, 0));
    assert_eq!(cell_offset(1), v3(-4_000_000, 4_000_000, 0));
    assert_eq!(cell_offset(2), v3(0, 4_000_000, 0));
    assert_eq!(cell_offset(4), v3(8_000_000, 4_000_000, 0));
    assert_eq!(cell_offset(5), v3(-8_000_000, 0, 0));
    assert_eq!(cell_offset(7), v3(0, 0, 0));
    assert_eq!(cell_offset(14), v3(8_000_000, -4_000_000, 0));
    assert_eq!(cell_offset(23), v3(4_000_000, -12_000_000, 0));
}

#[test]
fn cells_with_negative_indices_round_toward_zero() {
    assert_eq!(cell_offset(-1), v3(-12_000_000, 4_000_000, 0));
    assert_eq!(cell_offset(-4), v3(-24_000_000, 4_000_000, 0));
    assert_eq!(cell_offset(-5), v3(-8_000_000, 8_000_000, 0));
    assert_eq!(cell_offset(-7), v3(-16_000_000, 8_000_000, 0));
    assert_eq!(cell_offset(i32::MAX), v3(0, -1_717_986_912_000_000, 0));
    assert_eq!(cell_offset(i32::MIN), v3(-20_000_000, 1_717_986_920_000_000, 0));
}

#[test]
fn eleven_cells_are_occupied() {
    assert_eq!(exhibit_at(0), Some(Exhibit::Line));
    assert_eq!(exhibit_at(2), Some(Exhibit::Circles));
    assert_eq!(exhibit_at(3), Some(Exhibit::Arcs));
    assert_eq!(exhibit_at(4), Some(Exhibit::Polygons));
    assert_eq!(exhibit_at(6), Some(Exhibit::Rect));
    assert_eq!(exhibit_at(7), Some(Exhibit::Pulse));
    assert_eq!(exhibit_at(8), Some(Exhibit::Sweep));
    assert_eq!(exhibit_at(9), Some(Exhibit::Morph));
    assert_eq!(exhibit_at(12), Some(Exhibit::Bubbles));
    assert_eq!(exhibit_at(13), Some(Exhibit::Meter));
    assert_eq!(exhibit_at(14), Some(Exhibit::Tiling));
    for index in [1, 5, 10, 11, 15, 16, -1, -14, i32::MIN, i32::MAX] {
        assert_eq!(exhibit_at(index), None);
    }
}

#[test]
fn empty_cells_and_empty_ranges_draw_nothing() {
    assert!(compose(fx(0), 1..2).is_empty());
    assert!(compose(fx(0), 15..40).is_empty());
    assert!(compose(fx(0), -20..0).is_empty());
    assert!(compose(fx(0), 0..0).is_empty());
    assert!(compose(fx(0), 7..3).is_empty());
}

#[test]
fn a_range_is_drawn_cell_by_cell_in_rising_order() {
    let whole = compose(fx(2_000_000), 0..10);
    let mut pieces = compose(fx(2_000_000), 0..3);
    let second = gallery(
        {
            let mut p = Painter::new();
            let first = gallery(Painter::new(), fx(2_000_000), 0..3);
            p.commands = first.commands;
            p
        },
        fx(2_000_000),
        3..10,
    );
    assert_eq!(second.commands[..pieces.len()], pieces[..]);
    pieces = second.commands;
    assert_eq!(pieces.len(), whole.len());
    for (k, command) in whole.iter().enumerate() {
        assert_eq!(command.transform, pieces[k].transform);
        assert_eq!(command.geometry, pieces[k].geometry);
    }
}

#[test]
fn the_number_of_shapes_in_each_cell() {
    let counts: Vec<usize> =
        (0..14).map(|index| compose(fx(1_000_000), index..index + 1).len()).collect();
    assert_eq!(counts, vec![1, 0, 2, 2, 4, 0, 1, 1, 1, 1, 0, 0, 5, 5]);
    assert_eq!(compose(fx(0), 12..13).len(), 4);
}

#[test]
fn style_carries_over_from_cell_to_cell() {
    let alone = compose(fx(0), 3..4);
    let after_circles = compose(fx(0), 2..4);
    assert_eq!(alone[0].thickness, fx(100_000));
    assert_eq!(after_circles[2].thickness, fx(200_000));
    assert_eq!(alone[0].geometry, after_circles[2].geometry);
    assert_eq!(alone[0].color, after_circles[2].color);
    assert_eq!(alone[0].transform, after_circles[2].transform);
}

#[test]
fn every_cell_starts_from_the_origin_of_the_grid() {
    let commands = compose(fx(0), 2..5);
    assert_eq!(commands[0].transform, at(800_000, 4_800_000, 0));
    assert_eq!(commands[1].transform, at(-800_000, 3_200_000, 0));
    assert_eq!(commands[2].transform, at(4_800_000, 4_800_000, 0));
    assert_eq!(commands[3].transform, at(3_200_000, 3_200_000, 0));
    assert_eq!(commands[4].transform, at(9_000_000, 5_000_000, 0));
    assert_eq!(commands[5].transform, at(7_000_000, 5_000_000, 0));
    assert_eq!(commands[6].transform, at(7_000_000, 3_000_000, 0));
    assert_eq!(commands[7].transform, at(9_000_000, 3_000_000, 0));
}

#[test]
fn the_gallery_keeps_what_was_drawn_and_hands_back_a_reset_painter() {
    let mut p = Painter::new();
    p.color = Color::yellow();
    p.circle(Fixed::from_int(1));
    p.translate(Vec3::new(100_000, 0, 0));
    p.thickness = Fixed::from_int(2);
    let kept = p.commands[0];
    let done = gallery(p, fx(0), 0..1);
    assert_eq!(done.commands.len(), 2);
    assert_eq!(done.commands[0], kept);
    assert_eq!(done.commands[1].transform, at(92_000_000, 4_000_000, 0));
    assert_eq!(done.commands[1].thickness, fx(2_000_000));
    assert_eq!(done.transform, Transform::identity());
    assert_eq!(done.style(), Style::initial());
}

#[test]
fn the_grid_turns_with_the_painter() {
    let mut p = Painter::new();
    p.rotate_z(fx(HALF_PI));
    let done = gallery(p, fx(0), 0..1);
    assert_eq!(done.commands[0].transform.translation, v3(-4_000_000, -8_000_000, 0));
    assert_eq!(done.commands[0].transform.rotation, fx(HALF_PI));
}

#[test]
fn draw_cell_places_and_runs() {
    let mut p = Painter::new();
    p.translate(Vec3::new(5000, 5000, 0));
    draw_cell(&mut p, Transform::identity(), fx(0), 7);
    assert_eq!(p.commands.len(), 1);
    assert_eq!(p.commands[0].transform, Transform::identity());
    draw_cell(&mut p, Transform::identity(), fx(0), 1);
    assert_eq!(p.commands.len(), 1);
    assert_eq!(p.transform, at(-4_000_000, 4_000_000, 0));
}

#[test]
fn exhibits_do_not_depend_on_one_another() {
    for exhibit in ALL {
        let mut alone = Painter::new();
        run_exhibit(&mut alone, exhibit, fx(1_000_000));
        for earlier in ALL {
            let mut p = Painter::new();
            run_exhibit(&mut p, earlier, fx(1_000_000));
            let skip = p.commands.len();
            p.reset();
            run_exhibit(&mut p, exhibit, fx(1_000_000));
            assert_eq!(p.commands[skip..], alone.commands[..]);
        }
    }
}

#[test]
fn the_wave_swings_between_zero_and_one() {
    assert_eq!(wave(fx(0)), fx(500_000));
    assert_eq!(wave(fx(HALF_PI)), fx(1_000_000));
    assert_eq!(wave(fx(PI)), fx(500_000));
    assert_eq!(wave(fx(3 * HALF_PI)), fx(0));
    assert_eq!(wave(Fixed::from_int(1)), fx(920_735));
    let mut raw: i64 = -PERIOD;
    while raw <= PERIOD {
        let w = wave(fx(raw)).raw;
        assert!(0 <= w && w <= 1_000_000);
        raw += 4_999;
    }
}

#[test]
fn the_square_turns_and_swells() {
    let mut p = Painter::new();
    rect_exhibit(&mut p, fx(0));
    assert_eq!(p.transform.rotation, fx(3_455_753));
    assert_eq!(
        p.commands,
        vec![DrawCommand {
            transform: Transform { rotation: fx(3_455_753), ..Transform::identity() },
            color: rgba(430_000, 800_000, 590_000, 2_000_000),
            thickness: fx(850_000),
            hollow: true,
            geometry: Geometry::Quad {
                size: Vec2::splat(fx(2_500_000)),
                corner_radii: Vec4::splat(fx(1_000_000)),
            },
        }]
    );
    let mut q = Painter::new();
    rect_exhibit(&mut q, fx(1_000_000));
    assert_eq!(q.commands[0].transform.rotation, fx(5_834_951));
    assert_eq!(q.commands[0].thickness, fx(941_728));
}

#[test]
fn the_ring_pulses() {
    let mut p = Painter::new();
    pulse_exhibit(&mut p, fx(1_000_000));
    assert_eq!(
        p.commands[0].geometry,
        Geometry::Sector {
            radius: fx(1_431_973),
            start_angle: fx(0),
            sweep: fx(TAU),
            cap: Cap::Butt,
        }
    );
    assert_eq!(p.commands[0].thickness, fx(500_000));
    assert_eq!(p.commands[0].color, rgba(1_250_000, 900_000, 250_000, 2_000_000));
    let mut q = Painter::new();
    pulse_exhibit(&mut q, fx(3 * HALF_PI / 2));
    assert!(q.commands.is_empty());
}

#[test]
fn the_arc_chases_its_tail() {
    let mut p = Painter::new();
    p.cap = Cap::Round;
    sweep_exhibit(&mut p, fx(1_000_000));
    assert_eq!(
        p.commands[0].geometry,
        Geometry::Sector {
            radius: fx(1_500_000),
            start_angle: fx(3_000_000),
            sweep: fx(5_909_662),
            cap: Cap::Butt,
        }
    );
    let mut q = Painter::new();
    sweep_exhibit(&mut q, fx(3 * HALF_PI));
    assert_eq!(
        q.commands[0].geometry,
        Geometry::Sector {
            radius: fx(1_500_000),
            start_angle: fx((3 * 3 * HALF_PI) % TAU),
            sweep: fx(HALF_PI),
            cap: Cap::Butt,
        }
    );
}

#[test]
fn the_meter_fills_between_its_rails() {
    let mut p = Painter::new();
    meter_exhibit(&mut p, fx(1_000_000));
    assert_eq!(p.commands.len(), 5);
    assert_eq!(
        p.commands[0].geometry,
        Geometry::Sector {
            radius: fx(1_300_000),
            start_angle: fx(3_926_993),
            sweep: fx(4_338_863),
            cap: Cap::Round,
        }
    );
    assert_eq!(p.commands[0].thickness, fx(400_000));
    assert_eq!(
        p.commands[0].color,
        Color::crimson().pastel().scaled(fx(739_403))
    );
    for rail in [1, 2] {
        assert_eq!(p.commands[rail].color, Color::white());
        assert_eq!(p.commands[rail].thickness, fx(200_000));
        assert_eq!(p.commands[rail].transform, Transform::identity());
    }
    assert_eq!(
        p.commands[1].geometry,
        Geometry::Sector {
            radius: fx(1_600_000),
            start_angle: fx(3_926_993),
            sweep: fx(4_712_390),
            cap: Cap::Butt,
        }
    );
    assert_eq!(p.commands[3].transform.translation, v3(777_817, -777_816, 0));
    assert_eq!(p.commands[4].transform.translation, v3(-777_817, -777_816, 0));
    assert_eq!(
        p.commands[3].geometry,
        Geometry::Sector {
            radius: fx(500_000),
            start_angle: fx(2_356_196),
            sweep: fx(PI),
            cap: Cap::Butt,
        }
    );
    assert_eq!(
        p.commands[4].geometry,
        Geometry::Sector {
            radius: fx(500_000),
            start_angle: fx(785_399),
            sweep: fx(PI),
            cap: Cap::Butt,
        }
    );
}

#[test]
fn the_growth_curve_of_a_bubble() {
    assert_eq!(swell(fx(0)), fx(0));
    assert_eq!(swell(Fixed::from_int(-1)), fx(0));
    assert_eq!(swell(Fixed::from_int(1)), fx(1_000_000));
    assert_eq!(swell(Fixed::from_millis(2500)), fx(13_008_643));
    assert_eq!(swell(Fixed::from_int(3)), fx(21_674_016));
    for raw in [100_000i64, 500_000, 1_700_000, 3_141_594] {
        let x = raw as f64 / 1e6;
        let got = swell(fx(raw)).raw as f64 / 1e6;
        assert!((got - x.powf(2.8)).abs() < 1e-4, "{} to the 2.8 gave {}", x, got);
    }
}

#[test]
fn one_bubble_after_one_second() {
    let mut p = Painter::new();
    draw_bubble(&mut p, fx(1_000_000), Vec3::new(1000, -600, 0), Fixed::from_millis(1100));
    assert_eq!(
        p.commands,
        vec![DrawCommand {
            transform: at(1_000_000, -539_500, 0),
            color: rgba(1_277_500, 927_500, 277_500, 3_000_000),
            thickness: fx(330_237),
            hollow: true,
            geometry: Geometry::Sector {
                radius: fx(27_500),
                start_angle: fx(0),
                sweep: fx(TAU),
                cap: Cap::Butt,
            },
        }]
    );
}

#[test]
fn a_bubble_starts_over_every_half_turn() {
    for t in [0, 1, 1_000_000, 3_000_000] {
        let mut a = Painter::new();
        let mut b = Painter::new();
        draw_bubble(&mut a, fx(t), Vec3::new(0, -1000, 0), Fixed::from_millis(1700));
        draw_bubble(&mut b, fx(t + PI), Vec3::new(0, -1000, 0), Fixed::from_millis(1700));
        assert_eq!(a.commands, b.commands);
    }
}

#[test]
fn a_bubble_that_has_no_outline_left_is_drawn_with_none() {
    let mut p = Painter::new();
    draw_bubble(&mut p, fx(3_000_000), Vec3::new(0, 0, 0), Fixed::from_int(1));
    assert_eq!(p.thickness, fx(325_216 - 541_850));
    assert_eq!(p.commands[0].thickness, fx(0));
}

#[test]
fn five_bubbles_from_one_point() {
    let mut p = Painter::new();
    bubbles_exhibit(&mut p, fx(1_000_000));
    assert_eq!(p.commands.len(), 5);
    let xs: Vec<i64> = p.commands.iter().map(|c| c.transform.translation.x.raw).collect();
    assert_eq!(xs, vec![1_000_000, 0, -1_000_000, -500_000, 700_000]);
    assert_eq!(p.commands[0].transform.translation, v3(1_000_000, -1_139_500, 0));
    for command in &p.commands {
        assert!(command.hollow);
        assert!(matches!(command.geometry, Geometry::Sector { sweep: Fixed { raw: TAU }, .. }));
    }
}

#[test]
fn a_tile_fades_toward_the_rim() {
    assert_eq!(HEX_RADIUS, 350);
    assert_eq!(BOUNDS, 1800);
    let origin = v3(0, 0, 0);
    let mut p = Painter::new();
    draw_gon(&mut p, origin, Fixed::from_int(6), Fixed::from_millis(350));
    assert_eq!(p.commands.len(), 1);
    assert_eq!(p.commands[0].color, rgba(750_000, 250_000, 750_000, 722_223));
    p.translate(Vec3::new(1800, 0, 0));
    draw_gon(&mut p, origin, Fixed::from_int(6), Fixed::from_millis(350));
    assert_eq!(p.commands.len(), 1, "a tile on the rim has no size left");
    assert_eq!(p.color.alpha, fx(0));
    p.translate(Vec3::new(0, 10, 0));
    p.color = Color::white();
    draw_gon(&mut p, origin, Fixed::from_int(6), Fixed::from_millis(350));
    assert_eq!(p.commands.len(), 1);
    assert_eq!(p.color, Color::white(), "beyond the rim nothing is touched");
    p.restore(at(900_000, 0, 0));
    draw_gon(&mut p, origin, Fixed::from_int(3), Fixed::from_millis(350));
    assert_eq!(p.commands[1].color.alpha, fx(500_000));
    match p.commands[1].geometry {
        Geometry::Polygon(polygon) => {
            assert_eq!(polygon.sides, fx(3_000_000));
            assert_eq!(polygon.radius, fx(243_753));
        }
        other => panic!("not a polygon: {:?}", other),
    }
}

#[test]
fn one_position_holds_a_hexagon_and_two_triangles() {
    let right = v3(350_000, -606_218, 0);
    let mut p = Painter::new();
    p.translate(Vec3::new(100, 200, 0));
    let home = p.snapshot();
    draw_position(&mut p, v3(0, 0, 0), right);
    assert_eq!(p.transform, home);
    assert_eq!(p.commands.len(), 3);
    let sides: Vec<i64> = p
        .commands
        .iter()
        .map(|c| match c.geometry {
            Geometry::Polygon(polygon) => polygon.sides.raw,
            other => panic!("not a polygon: {:?}", other),
        })
        .collect();
    assert_eq!(sides, vec![6_000_000, 3_000_000, 3_000_000]);
    assert_eq!(p.commands[0].transform, home);
    assert_eq!(p.commands[1].transform.rotation, fx(0));
    assert_eq!(p.commands[2].transform.rotation, fx(PI));
}

#[test]
fn the_tiling_stays_within_its_bounds() {
    for t in [0, 500_000, 1_000_000, 2_900_000, PI - 1] {
        let mut p = Painter::new();
        p.translate(Vec3::new(3000, -2000, 0));
        let home = p.snapshot();
        tiling_exhibit(&mut p, fx(t));
        assert_eq!(p.transform, home);
        assert!(!p.hollow);
        assert!(p.commands.len() > 60 && p.commands.len() < 3 * 144, "{} tiles", p.commands.len());
        for command in &p.commands {
            let dx = (command.transform.translation.x.raw - home.translation.x.raw) as f64 / 1e6;
            let dy = (command.transform.translation.y.raw - home.translation.y.raw) as f64 / 1e6;
            let dist = (dx * dx + dy * dy).sqrt();
            assert!(dist < 1.8);
            let alpha = command.color.alpha.raw as f64 / 1e6;
            assert!((alpha - (1.0 - dist.max(0.5) / 1.8)).abs() < 1e-5);
            match command.geometry {
                Geometry::Polygon(polygon) => {
                    assert!(polygon.sides == fx(6_000_000) || polygon.sides == fx(3_000_000));
                    assert_eq!(polygon.corner_radius, fx(0));
                }
                other => panic!("not a polygon: {:?}", other),
            }
        }
    }
}

#[test]
fn the_tiling_drifts_by_whole_tiles() {
    let mut a = Painter::new();
    let mut b = Painter::new();
    tiling_exhibit(&mut a, fx(250_000));
    tiling_exhibit(&mut b, fx(250_000 + PI));
    assert_eq!(a.commands, b.commands);
}

#[test]
fn the_gallery_emits_only_well_formed_commands() {
    for t in [0, 777_777, 2_600_000, 4_000_000, 9_000_000, -3_000_000, i64::MAX, i64::MIN] {
        for command in compose(fx(t), -3..18) {
            assert!(command.thickness.raw >= 0);
            match command.geometry {
                Geometry::Segment { .. } => {}
                Geometry::Quad { size, corner_radii } => {
                    assert!(size.x.raw > 0 && size.y.raw > 0);
                    assert!(0 <= corner_radii.x.raw && 2 * corner_radii.x.raw <= size.x.raw);
                }
                Geometry::Sector { radius, start_angle, sweep, .. } => {
                    assert!(radius.raw > 0);
                    assert!(0 <= start_angle.raw && start_angle.raw < TAU);
                    assert!(sweep.raw != 0 && -TAU <= sweep.raw && sweep.raw <= TAU);
                }
                Geometry::Polygon(polygon) => {
                    assert!(polygon.sides.raw >= 3_000_000 && polygon.radius.raw > 0);
                    assert!(0 <= polygon.corner_radius.raw);
                    assert!(polygon.corner_radius.raw <= polygon.apothem.raw);
                    assert!(polygon.apothem.raw <= polygon.radius.raw);
                }
            }
        }
    }
}

#[test]
fn no_cell_holds_more_than_the_most_shapes() {
    assert_eq!(MOST_SHAPES_IN_A_CELL, 432);
    for t in [0, 1_234_567, 6_000_000, -2_000_000] {
        for index in -2..17 {
            assert!(compose(fx(t), index..index + 1).len() <= 432);
        }
        assert!(compose(fx(t), 0..15).len() <= 15 * 432);
    }
}

#[test]
fn the_bubbles_and_the_tiling_repeat_after_half_a_turn() {
    for index in [12, 14] {
        for t in [0, 1, 250_000, 3_000_000, 11_000_000, -1, -4_000_000, -PERIOD - 7] {
            assert_eq!(
                compose(fx(t), index..index + 1),
                compose(fx(t + PI), index..index + 1),
                "cell {} at {}",
                index,
                t
            );
        }
    }
    assert_ne!(compose(fx(1_000_000), 13..14), compose(fx(1_000_000 + PI), 13..14));
}

#[test]
fn the_draws_of_a_range_are_those_of_its_cells_one_after_the_other() {
    for t in [0, 1_234_567, -2_000_000] {
        let mut carried = Painter::new();
        let mut pieces: Vec<DrawCommand> = Vec::new();
        for index in -2..17 {
            draw_cell(&mut carried, Transform::identity(), fx(t).modulo(fx(PERIOD)), index);
            pieces.append(&mut carried.commands);
            assert!(carried.commands.is_empty());
        }
        assert_eq!(pieces, compose(fx(t), -2..17));
    }
}

#[test]
fn what_a_cell_draws_does_not_depend_on_what_was_drawn_before() {
    let mut blank = Painter::new();
    blank.thickness = Fixed::from_int(2);
    let mut full = Painter::new();
    full.thickness = Fixed::from_int(2);
    full.translate(Vec3::new(7000, 0, 0));
    full.circle(Fixed::from_int(1));
    full.rect(Vec2::splat(Fixed::from_int(1)));
    for index in 0..15 {
        let held = full.commands.len();
        let had = blank.commands.len();
        draw_cell(&mut blank, Transform::identity(), fx(500_000), index);
        draw_cell(&mut full, Transform::identity(), fx(500_000), index);
        assert_eq!(full.commands[held..], blank.commands[had..]);
        assert_eq!(full.transform, blank.transform);
        assert_eq!(full.style(), blank.style());
    }
}

#[test]
fn the_morphing_polygon_is_the_same_in_every_range() {
    for t in [0, 1_000_000, 3 * HALF_PI, -3_000_000] {
        let alone = compose(fx(t), 9..10);
        assert_eq!(alone.len(), 1);
        let among = compose(fx(t), 6..11);
        let found = among[among.len() - 1];
        assert_eq!(found.transform, alone[0].transform);
        assert_eq!(found.geometry, alone[0].geometry);
        match found.geometry {
            Geometry::Polygon(polygon) => {
                assert_eq!(polygon.sides.raw, 3_000_000 + 3 * (fx(t).sin().raw + 1_000_000));
                assert_eq!(polygon.sides, shape_gallery::gallery::morph_sides(fx(t)));
                assert_eq!(polygon.radius, fx(1_500_000));
            }
            other => panic!("not a polygon: {:?}", other),
        }
    }
}

#[test]
fn the_morphing_polygon_moves_little_in_little_time() {
    let mut t: i64 = 0;
    while t < PERIOD {
        let a = compose(fx(t), 9..10)[0];
        let b = compose(fx(t + 100), 9..10)[0];
        let (p, q) = match (a.geometry, b.geometry) {
            (Geometry::Polygon(p), Geometry::Polygon(q)) => (p, q),
            other => panic!("not polygons: {:?}", other),
        };
        assert!((p.sides.raw - q.sides.raw).abs() <= 6 * 100 + 48);
        for k in 0..3 {
            let bound = 1_500_000 * (2 * (k as i64 * (6 * 100 + 49)) + 16) / 1_000_000 + 2;
            assert!((p.vertex(k).x.raw - q.vertex(k).x.raw).abs() <= bound);
            assert!((p.vertex(k).y.raw - q.vertex(k).y.raw).abs() <= bound);
        }
        t += 77_777;
    }
}
