use shape_gallery::color::Color;
use shape_gallery::fixed::Fixed;
use shape_gallery::painter::Painter;
use shape_gallery::shape::{
    arc_span, generate, Cap, DrawCommand, Geometry, RenderCall, ShapeRequest, Style,
};
use shape_gallery::transform::Transform;
use shape_gallery::trig::{HALF_PI, PI, TAU};
use shape_gallery::vector::{Quat, Vec2, Vec3, Vec4};

fn fx(raw: i64) -> Fixed {
    Fixed { raw }
}

fn v3(x: i64, y: i64, z: i64) -> Vec3 {
    Vec3 { x: fx(x), y: fx(y), z: fx(z) }
}

fn last(painter: &Painter) -> DrawCommand {
    painter.commands[painter.commands.len() - 1]
}

fn scribble(painter: &mut Painter) {
    painter.translate(Vec3::new(1500, -250, 3000));
    painter.rotate_z(Fixed::from_millis(700));
    painter.translate(Vec3::new(-20, 40, 0));
    painter.transform.scale = Vec3::new(2000, 500, 1000);
    painter.color = Color::crimson();
    painter.thickness = Fixed::from_int(3);
    painter.hollow = true;
    painter.cap = Cap::Square;
    painter.corner_radii = Vec4::splat(Fixed::from_int(1));
    painter.roundness = Fixed::from_millis(300);
}

#[test]
fn a_new_painter_has_the_initial_state() {
    let p = Painter::new();
    assert_eq!(p.transform, Transform::identity());
    assert_eq!(p.transform.translation, v3(0, 0, 0));
    assert_eq!(p.transform.orientation, Quat { x: fx(0), y: fx(0), z: fx(0), w: fx(1_000_000) });
    assert_eq!(p.transform.rotation, fx(0));
    assert_eq!(p.transform.scale, v3(1_000_000, 1_000_000, 1_000_000));
    assert_eq!(p.style(), Style::initial());
    assert_eq!(p.color, Color::white());
    assert_eq!(p.thickness, fx(100_000));
    assert!(!p.hollow);
    assert_eq!(p.cap, Cap::Butt);
    assert_eq!(p.corner_radii, Vec4::splat(fx(0)));
    assert_eq!(p.roundness, fx(0));
    assert!(p.commands.is_empty());
}

#[test]
fn reset_restores_the_initial_state_after_any_history() {
    let mut p = Painter::new();
    scribble(&mut p);
    p.circle(Fixed::from_int(1));
    p.reset();
    assert_eq!(p.transform, Transform::identity());
    assert_eq!(p.style(), Style::initial());
    assert_eq!(p.commands.len(), 1);

    let mut q = Painter::new();
    q.rotate_z(fx(PI));
    q.reset();
    q.reset();
    assert_eq!(q.transform, p.transform);
    assert_eq!(q.style(), p.style());
}

#[test]
fn restore_brings_back_the_snapshot() {
    let mut p = Painter::new();
    p.translate(Vec3::new(1000, 2000, 3000));
    p.rotate_z(Fixed::from_millis(1234));
    let saved = p.snapshot();
    let row = p.snapshot();
    scribble(&mut p);
    p.ngon(Fixed::from_int(5), Fixed::from_int(1));
    let style = p.style();
    let drawn = p.commands.len();
    p.restore(saved);
    assert_eq!(p.transform, saved);
    assert_eq!(p.transform, row);
    assert_eq!(p.style(), style);
    assert_eq!(p.commands.len(), drawn);
}

#[test]
fn translation_without_rotation_is_plain_addition() {
    let mut p = Painter::new();
    p.translate(Vec3::new(1500, -250, 3000));
    p.translate(Vec3::new(-500, 250, 1));
    assert_eq!(p.transform.translation, v3(1_000_000, 0, 3_001_000));
    assert_eq!(p.transform.rotation, fx(0));
}

#[test]
fn translation_follows_the_rotation() {
    let mut p = Painter::new();
    p.rotate_z(fx(HALF_PI));
    p.translate(Vec3::new(1000, 0, 0));
    assert_eq!(p.transform.translation, v3(0, 1_000_000, 0));
    p.translate(Vec3::new(0, 2000, 500));
    assert_eq!(p.transform.translation, v3(-2_000_000, 1_000_000, 500_000));
    p.rotate_z(fx(HALF_PI));
    p.translate(Vec3::new(1000, 1000, 0));
    assert_eq!(p.transform.translation, v3(-3_000_000, 0, 500_000));
}

#[test]
fn translation_follows_the_scale() {
    let mut p = Painter::new();
    p.transform.scale = Vec3::new(2000, 500, 3000);
    p.translate(Vec3::new(1000, 1000, 1000));
    assert_eq!(p.transform.translation, v3(2_000_000, 500_000, 3_000_000));
}

#[test]
fn rotation_accumulates_within_one_turn() {
    let mut p = Painter::new();
    p.rotate_z(fx(PI));
    p.rotate_z(fx(HALF_PI));
    assert_eq!(p.transform.rotation, fx(PI + HALF_PI));
    p.rotate_z(fx(PI));
    assert_eq!(p.transform.rotation, fx(HALF_PI));
    p.rotate_z(fx(-PI));
    assert_eq!(p.transform.rotation, fx(PI + HALF_PI));
    p.rotate_z(fx(i64::MAX));
    assert!(0 <= p.transform.rotation.raw && p.transform.rotation.raw < TAU);
    p.transform.rotation = fx(i64::MIN);
    p.rotate_z(fx(i64::MIN));
    assert!(0 <= p.transform.rotation.raw && p.transform.rotation.raw < TAU);
}

#[test]
fn a_line_is_always_an_outline() {
    let mut p = Painter::new();
    p.cap = Cap::Square;
    p.line(Vec3::new(-1000, 0, 0), Vec3::new(1000, 500, 0));
    assert_eq!(
        p.commands,
        vec![DrawCommand {
            transform: Transform::identity(),
            color: Color::white(),
            thickness: fx(100_000),
            hollow: true,
            geometry: Geometry::Segment {
                start: v3(-1_000_000, 0, 0),
                end: v3(1_000_000, 500_000, 0),
                cap: Cap::Square,
            },
        }]
    );
}

#[test]
fn shapes_read_the_state_at_the_moment_of_the_call() {
    let mut p = Painter::new();
    p.color = Color::orange();
    p.circle(Fixed::from_int(1));
    p.color = Color::purple();
    p.translate(Vec3::new(1000, 0, 0));
    p.circle(Fixed::from_int(2));
    assert_eq!(p.commands.len(), 2);
    assert_eq!(p.commands[0].color, Color::orange());
    assert_eq!(p.commands[0].transform, Transform::identity());
    assert_eq!(p.commands[1].color, Color::purple());
    assert_eq!(p.commands[1].transform.translation, v3(1_000_000, 0, 0));
}

#[test]
fn a_circle_is_the_arc_of_one_full_turn() {
    for (hollow, cap) in [(false, Cap::Butt), (true, Cap::Round), (true, Cap::Square)] {
        for radius in [1, 800_000, 4_000_000, i64::MAX] {
            let mut a = Painter::new();
            let mut b = Painter::new();
            a.hollow = hollow;
            b.hollow = hollow;
            a.cap = cap;
            b.cap = cap;
            a.circle(fx(radius));
            b.arc(fx(radius), fx(0), fx(TAU));
            assert_eq!(a.commands, b.commands);
            assert_eq!(a.commands.len(), 1);
            assert_eq!(
                a.commands[0].geometry,
                Geometry::Sector {
                    radius: fx(radius),
                    start_angle: fx(0),
                    sweep: fx(TAU),
                    cap: Cap::Butt,
                }
            );
        }
    }
}

#[test]
fn radius_zero_or_less_draws_nothing() {
    let mut p = Painter::new();
    p.circle(fx(0));
    p.circle(fx(-1));
    p.arc(fx(0), fx(0), fx(PI));
    p.arc(Fixed::from_int(-3), fx(0), fx(PI));
    p.ngon(Fixed::from_int(5), fx(0));
    p.ngon(Fixed::from_int(5), fx(-1));
    assert!(p.commands.is_empty());
}

#[test]
fn fewer_than_three_sides_draw_nothing() {
    let mut p = Painter::new();
    p.ngon(fx(2_999_999), Fixed::from_int(1));
    p.ngon(fx(0), Fixed::from_int(1));
    p.ngon(Fixed::from_int(-5), Fixed::from_int(1));
    assert!(p.commands.is_empty());
    p.ngon(Fixed::from_int(3), Fixed::from_int(1));
    assert_eq!(p.commands.len(), 1);
}

#[test]
fn an_arc_without_sweep_draws_nothing() {
    let mut p = Painter::new();
    p.arc(Fixed::from_int(1), fx(0), fx(0));
    p.arc(Fixed::from_int(1), fx(PI), fx(PI));
    assert!(p.commands.is_empty());
}

#[test]
fn a_rectangle_without_area_draws_nothing() {
    let mut p = Painter::new();
    p.rect(Vec2 { x: fx(0), y: fx(1_000_000) });
    p.rect(Vec2 { x: fx(1_000_000), y: fx(0) });
    p.rect(Vec2 { x: fx(-1), y: fx(1_000_000) });
    p.rect(Vec2 { x: fx(1_000_000), y: fx(-1_000_000) });
    assert!(p.commands.is_empty());
}

#[test]
fn negative_thickness_is_passed_on_as_zero() {
    let mut p = Painter::new();
    p.hollow = true;
    p.thickness = Fixed::from_millis(-250);
    p.circle(Fixed::from_int(1));
    p.line(Vec3::new(0, 0, 0), Vec3::new(1000, 0, 0));
    assert_eq!(p.commands.len(), 2);
    assert_eq!(p.commands[0].thickness, fx(0));
    assert_eq!(p.commands[1].thickness, fx(0));
    assert_eq!(p.thickness, fx(-250_000));
    assert_eq!(p.style().stroke(), fx(0));
}

#[test]
fn an_arc_keeps_direction_and_start_within_one_turn() {
    let mut p = Painter::new();
    p.hollow = true;
    p.cap = Cap::Round;
    p.arc(Fixed::from_int(1), fx(PI), fx(HALF_PI));
    assert_eq!(
        last(&p).geometry,
        Geometry::Sector {
            radius: fx(1_000_000),
            start_angle: fx(PI),
            sweep: fx(-HALF_PI),
            cap: Cap::Round,
        }
    );
    p.arc(Fixed::from_int(1), fx(-HALF_PI), fx(HALF_PI));
    assert_eq!(
        last(&p).geometry,
        Geometry::Sector {
            radius: fx(1_000_000),
            start_angle: fx(TAU - HALF_PI),
            sweep: fx(PI),
            cap: Cap::Round,
        }
    );
    p.arc(Fixed::from_int(1), fx(TAU + 5), fx(TAU + 9));
    assert_eq!(
        last(&p).geometry,
        Geometry::Sector {
            radius: fx(1_000_000),
            start_angle: fx(5),
            sweep: fx(4),
            cap: Cap::Round,
        }
    );
}

#[test]
fn a_sweep_beyond_one_turn_closes_the_circle() {
    let mut p = Painter::new();
    p.hollow = true;
    p.cap = Cap::Round;
    p.arc(Fixed::from_int(1), fx(1), fx(3 * TAU));
    assert_eq!(
        last(&p).geometry,
        Geometry::Sector {
            radius: fx(1_000_000),
            start_angle: fx(1),
            sweep: fx(TAU),
            cap: Cap::Butt,
        }
    );
    p.arc(Fixed::from_int(1), fx(0), fx(-TAU - 1));
    assert_eq!(
        last(&p).geometry,
        Geometry::Sector {
            radius: fx(1_000_000),
            start_angle: fx(0),
            sweep: fx(-TAU),
            cap: Cap::Butt,
        }
    );
    p.arc(Fixed::from_int(1), fx(i64::MIN), fx(i64::MAX));
    assert_eq!(
        last(&p).geometry,
        Geometry::Sector {
            radius: fx(1_000_000),
            start_angle: fx(i64::MIN.rem_euclid(TAU)),
            sweep: fx(TAU),
            cap: Cap::Butt,
        }
    );
}

#[test]
fn round_caps_need_a_hollow_open_arc() {
    let mut p = Painter::new();
    p.cap = Cap::Round;
    p.hollow = false;
    p.arc(Fixed::from_int(1), fx(0), fx(PI));
    assert!(matches!(last(&p).geometry, Geometry::Sector { cap: Cap::Butt, .. }));
    p.hollow = true;
    p.arc(Fixed::from_int(1), fx(0), fx(PI));
    assert!(matches!(last(&p).geometry, Geometry::Sector { cap: Cap::Round, .. }));
    p.arc(Fixed::from_int(1), fx(0), fx(TAU - 1));
    assert!(matches!(last(&p).geometry, Geometry::Sector { cap: Cap::Round, .. }));
    p.cap = Cap::Square;
    p.arc(Fixed::from_int(1), fx(0), fx(PI));
    assert!(matches!(last(&p).geometry, Geometry::Sector { cap: Cap::Butt, .. }));
}

#[test]
fn corner_radii_are_cut_to_half_the_shorter_side() {
    let mut p = Painter::new();
    p.corner_radii = Vec4 { x: fx(-5), y: fx(300_000), z: fx(1_000_000), w: fx(i64::MAX) };
    p.rect(Vec2 { x: fx(4_000_000), y: fx(2_000_000) });
    assert_eq!(
        last(&p).geometry,
        Geometry::Quad {
            size: Vec2 { x: fx(4_000_000), y: fx(2_000_000) },
            corner_radii: Vec4 { x: fx(0), y: fx(300_000), z: fx(1_000_000), w: fx(1_000_000) },
        }
    );
    assert!(!last(&p).hollow);
}

#[test]
fn a_polygon_carries_its_measures() {
    let mut p = Painter::new();
    p.roundness = Fixed::from_millis(500);
    p.ngon(Fixed::from_int(3), Fixed::from_millis(1500));
    match last(&p).geometry {
        Geometry::Polygon(polygon) => {
            assert_eq!(polygon.sides, fx(3_000_000));
            assert_eq!(polygon.radius, fx(1_500_000));
            assert_eq!(polygon.corners, 3);
            assert_eq!(polygon.central_angle, fx(2_094_396));
            assert_eq!(polygon.apothem, fx(750_000));
            assert_eq!(polygon.corner_radius, fx(375_000));
            assert_eq!(polygon.vertex(0), Vec2 { x: fx(0), y: fx(1_500_000) });
            assert_eq!(polygon.vertex(1), Vec2 { x: fx(1_299_039), y: fx(-750_000) });
            assert_eq!(polygon.vertex(2), Vec2 { x: fx(-1_299_039), y: fx(-750_000) });
            assert_eq!(polygon.vertex(3), polygon.vertex(0));
        }
        other => panic!("not a polygon: {:?}", other),
    }
}

#[test]
fn roundness_counts_between_zero_and_one() {
    let mut p = Painter::new();
    p.roundness = Fixed::from_int(7);
    p.ngon(Fixed::from_int(4), Fixed::from_int(1));
    p.roundness = Fixed::from_int(-7);
    p.ngon(Fixed::from_int(4), Fixed::from_int(1));
    let radii: Vec<(Fixed, Fixed)> = p
        .commands
        .iter()
        .map(|c| match c.geometry {
            Geometry::Polygon(polygon) => (polygon.apothem, polygon.corner_radius),
            other => panic!("not a polygon: {:?}", other),
        })
        .collect();
    assert_eq!(radii[0].1, radii[0].0);
    assert_eq!(radii[1].1, fx(0));
    assert_eq!(radii[0].0, fx(707_107));
}

#[test]
fn the_corner_count_is_the_side_count_rounded_up() {
    let cases = [
        (3_000_000, 3),
        (3_000_001, 4),
        (3_990_000, 4),
        (4_000_000, 4),
        (4_010_000, 5),
        (9_000_000, 9),
    ];
    for (sides, corners) in cases {
        let mut p = Painter::new();
        p.ngon(fx(sides), Fixed::from_int(1));
        match last(&p).geometry {
            Geometry::Polygon(polygon) => assert_eq!(polygon.corners, corners),
            other => panic!("not a polygon: {:?}", other),
        }
    }
}

#[test]
fn a_polygon_does_not_jump_when_its_side_count_passes_a_whole_number() {
    let style = Style::initial();
    let mut before: Option<shape_gallery::shape::Polygon> = None;
    let mut sides: i64 = 3_900_000;
    while sides <= 4_100_000 {
        let request = ShapeRequest::Ngon { sides: fx(sides), radius: fx(800_000) };
        let command = generate(Transform::identity(), style, request).unwrap();
        let polygon = match command.geometry {
            Geometry::Polygon(polygon) => polygon,
            other => panic!("not a polygon: {:?}", other),
        };
        if let Some(earlier) = before {
            let gained = polygon.corners - earlier.corners;
            assert!(gained == 0 || gained == 1);
            assert!((earlier.central_angle.raw - polygon.central_angle.raw).abs() <= 1_001);
            for k in 0..earlier.corners as i32 {
                let a = earlier.vertex(k);
                let b = polygon.vertex(k);
                assert!((a.x.raw - b.x.raw).abs() < 2_000, "corner {} at {} sides", k, sides);
                assert!((a.y.raw - b.y.raw).abs() < 2_000, "corner {} at {} sides", k, sides);
            }
            if polygon.corners > earlier.corners {
                let newest = polygon.vertex(polygon.corners as i32 - 1);
                let first = polygon.vertex(0);
                assert!((newest.x.raw - first.x.raw).abs() < 2_000);
                assert!((newest.y.raw - first.y.raw).abs() < 2_000);
            }
        }
        before = Some(polygon);
        sides += 1_000;
    }
}

#[test]
fn generate_agrees_with_the_painter() {
    let mut p = Painter::new();
    scribble(&mut p);
    let request = ShapeRequest::Rect { size: Vec2::splat(Fixed::from_millis(2500)) };
    let expected = generate(p.transform, p.style(), request);
    p.draw(request);
    assert_eq!(Some(last(&p)), expected);
    assert_eq!(generate(p.transform, p.style(), ShapeRequest::Circle { radius: fx(0) }), None);
}

#[test]
fn commands_come_out_in_call_order() {
    let mut p = Painter::new();
    p.circle(Fixed::from_int(1));
    p.rect(Vec2::splat(Fixed::from_int(1)));
    p.circle(fx(0));
    p.ngon(Fixed::from_int(6), Fixed::from_int(1));
    p.line(Vec3::new(0, 0, 0), Vec3::new(1000, 0, 0));
    assert_eq!(p.commands.len(), 4);
    assert!(matches!(p.commands[0].geometry, Geometry::Sector { .. }));
    assert!(matches!(p.commands[1].geometry, Geometry::Quad { .. }));
    assert!(matches!(p.commands[2].geometry, Geometry::Polygon(_)));
    assert!(matches!(p.commands[3].geometry, Geometry::Segment { .. }));
}

#[test]
fn scaling_stretches_later_steps() {
    let mut p = Painter::new();
    p.scale(Vec3::new(2000, 3000, 1000));
    p.scale(Vec3::new(500, 1000, 4000));
    assert_eq!(p.transform.scale, v3(1_000_000, 3_000_000, 4_000_000));
    p.translate(Vec3::new(1000, 1000, 1000));
    assert_eq!(p.transform.translation, v3(1_000_000, 3_000_000, 4_000_000));
    assert_eq!(p.transform.rotation, fx(0));
}

#[test]
fn a_sector_lies_between_two_ordered_angles() {
    assert_eq!(arc_span(fx(PI), fx(HALF_PI)), (fx(PI), fx(PI + HALF_PI)));
    assert_eq!(arc_span(fx(PI), fx(-HALF_PI)), (fx(HALF_PI), fx(PI)));
    assert_eq!(arc_span(fx(5), fx(0)), (fx(5), fx(5)));
}

fn well_formed(command: &DrawCommand) -> bool {
    command.thickness.raw >= 0
        && match command.geometry {
            Geometry::Segment { .. } => true,
            Geometry::Quad { size, corner_radii } => {
                let shorter = size.x.raw.min(size.y.raw);
                size.x.raw > 0
                    && size.y.raw > 0
                    && [corner_radii.x, corner_radii.y, corner_radii.z, corner_radii.w]
                        .iter()
                        .all(|r| 0 <= r.raw && 2 * r.raw as i128 <= shorter as i128)
            }
            Geometry::Sector { radius, start_angle, sweep, cap } => {
                radius.raw > 0
                    && 0 <= start_angle.raw
                    && start_angle.raw < TAU
                    && sweep.raw != 0
                    && -TAU <= sweep.raw
                    && sweep.raw <= TAU
                    && cap != Cap::Square
                    && (cap != Cap::Round || (-TAU < sweep.raw && sweep.raw < TAU))
            }
            Geometry::Polygon(polygon) => {
                polygon.sides.raw >= 3_000_000
                    && polygon.radius.raw > 0
                    && polygon.corners >= 3
                    && ((polygon.corners - 1) as i128) * 1_000_000 < polygon.sides.raw as i128
                    && polygon.sides.raw as i128 <= polygon.corners as i128 * 1_000_000
                    && 0 <= polygon.central_angle.raw
                    && polygon.central_angle.raw <= TAU / 3
                    && 0 <= polygon.apothem.raw
                    && polygon.apothem.raw <= polygon.radius.raw
                    && 0 <= polygon.corner_radius.raw
                    && polygon.corner_radius.raw <= polygon.apothem.raw
            }
        }
}

#[test]
fn whatever_is_generated_is_well_formed() {
    let extremes =
        [i64::MIN, -TAU - 1, -1_000_000, -1, 0, 1, 999_999, 3_000_000, TAU, TAU + 1, i64::MAX];
    let mut styles = vec![Style::initial()];
    for &v in &extremes {
        styles.push(Style {
            thickness: fx(v),
            hollow: v % 2 == 0,
            cap: if v < 0 { Cap::Round } else { Cap::Square },
            corner_radii: Vec4 { x: fx(v), y: fx(-v.max(-i64::MAX)), z: fx(v / 2), w: fx(0) },
            roundness: fx(v),
            ..Style::initial()
        });
    }
    let mut seen = 0;
    for style in &styles {
        for &a in &extremes {
            for &b in &extremes {
                let requests = [
                    ShapeRequest::Line { start: v3(a, b, 0), end: v3(b, a, a) },
                    ShapeRequest::Rect { size: Vec2 { x: fx(a), y: fx(b) } },
                    ShapeRequest::Circle { radius: fx(a) },
                    ShapeRequest::Arc {
                        radius: fx(1_000_000),
                        start_angle: fx(a),
                        end_angle: fx(b),
                    },
                    ShapeRequest::Arc { radius: fx(a), start_angle: fx(b), end_angle: fx(0) },
                    ShapeRequest::Ngon { sides: fx(a), radius: fx(b) },
                ];
                for request in requests {
                    if let Some(command) = generate(Transform::identity(), *style, request) {
                        assert!(
                            well_formed(&command),
                            "{:?} under {:?} gave {:?}",
                            request,
                            style,
                            command
                        );
                        seen += 1;
                    }
                }
            }
        }
    }
    assert!(seen > 1_000);
}

#[test]
fn a_closed_sector_is_asked_for_as_a_circle() {
    for sweep in [TAU, -TAU] {
        let sector = Geometry::Sector {
            radius: fx(7),
            start_angle: fx(5),
            sweep: fx(sweep),
            cap: Cap::Butt,
        };
        assert_eq!(sector.render_call(), RenderCall::Circle { radius: fx(7) });
    }
}

#[test]
fn an_open_sector_is_asked_for_between_ordered_angles() {
    let forward = Geometry::Sector {
        radius: fx(7),
        start_angle: fx(PI),
        sweep: fx(TAU - 1),
        cap: Cap::Round,
    };
    assert_eq!(
        forward.render_call(),
        RenderCall::Arc {
            radius: fx(7),
            start_angle: fx(PI),
            end_angle: fx(PI + TAU - 1),
            cap: Cap::Round,
        }
    );
    let backward = Geometry::Sector {
        radius: fx(7),
        start_angle: fx(PI),
        sweep: fx(-HALF_PI),
        cap: Cap::Butt,
    };
    assert_eq!(
        backward.render_call(),
        RenderCall::Arc {
            radius: fx(7),
            start_angle: fx(HALF_PI),
            end_angle: fx(PI),
            cap: Cap::Butt,
        }
    );
}

#[test]
fn other_geometries_are_asked_for_as_they_are() {
    let mut p = Painter::new();
    p.cap = Cap::Square;
    p.roundness = Fixed::from_millis(500);
    p.line(Vec3::new(0, 0, 0), Vec3::new(1000, 0, 0));
    p.rect(Vec2::splat(Fixed::from_int(2)));
    p.ngon(Fixed::from_int(3), Fixed::from_millis(1500));
    p.circle(Fixed::from_int(1));
    let calls: Vec<RenderCall> = p.commands.iter().map(|c| c.geometry.render_call()).collect();
    assert_eq!(
        calls,
        vec![
            RenderCall::Line { start: v3(0, 0, 0), end: v3(1_000_000, 0, 0), cap: Cap::Square },
            RenderCall::Rect {
                size: Vec2::splat(fx(2_000_000)),
                corner_radii: Vec4::splat(fx(0)),
            },
            RenderCall::Ngon {
                sides: fx(3_000_000),
                radius: fx(1_500_000),
                roundness: fx(375_000),
            },
            RenderCall::Circle { radius: fx(1_000_000) },
        ]
    );
}

fn quat(x: i64, y: i64, z: i64, w: i64) -> Quat {
    Quat { x: fx(x), y: fx(y), z: fx(z), w: fx(w) }
}

#[test]
fn the_identity_attitude_turns_nothing() {
    for v in [v3(0, 0, 0), v3(1, -2, 3), v3(1_500_000, -250_000, 7), v3(i64::MAX, i64::MIN, 1)] {
        assert_eq!(Quat::identity().turned(v), v);
    }
}

#[test]
fn half_turns_about_the_axes_are_exact() {
    let v = v3(1_000_000, 2_000_000, 3_000_000);
    assert_eq!(quat(1_000_000, 0, 0, 0).turned(v), v3(1_000_000, -2_000_000, -3_000_000));
    assert_eq!(quat(0, 1_000_000, 0, 0).turned(v), v3(-1_000_000, 2_000_000, -3_000_000));
    assert_eq!(quat(0, 0, 1_000_000, 0).turned(v), v3(-1_000_000, -2_000_000, 3_000_000));
}

#[test]
fn a_quarter_turn_about_the_x_axis_lifts_the_y_axis() {
    let q = quat(707_107, 0, 0, 707_107);
    let up = q.turned(v3(0, 1_000_000, 0));
    assert!(up.x.raw == 0 && up.y.raw.abs() <= 2 && (up.z.raw - 1_000_000).abs() <= 2);
    let along = q.turned(v3(1_000_000, 0, 0));
    assert_eq!(along, v3(1_000_000, 0, 0));
}

#[test]
fn translation_follows_the_attitude_after_the_turn() {
    let mut p = Painter::new();
    p.transform.orientation = quat(1_000_000, 0, 0, 0);
    p.translate(Vec3::new(1000, 2000, 3000));
    assert_eq!(p.transform.translation, v3(1_000_000, -2_000_000, -3_000_000));
    p.rotate_z(fx(HALF_PI));
    assert_eq!(p.transform.orientation, quat(1_000_000, 0, 0, 0));
    p.translate(Vec3::new(1000, 0, 0));
    assert_eq!(p.transform.translation, v3(1_000_000, -3_000_000, -3_000_000));
    p.reset();
    assert_eq!(p.transform.orientation, Quat::identity());
}

#[test]
fn a_snapshot_keeps_the_attitude() {
    let mut p = Painter::new();
    p.transform.orientation = quat(0, 707_107, 0, 707_107);
    let saved = p.snapshot();
    p.transform.orientation = Quat::identity();
    p.translate(Vec3::new(1000, 0, 0));
    p.restore(saved);
    assert_eq!(p.transform, saved);
    assert_eq!(p.transform.orientation, quat(0, 707_107, 0, 707_107));
}
