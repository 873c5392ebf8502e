use shape_gallery::color::Color;
use shape_gallery::fixed::Fixed;
use shape_gallery::painter::Painter;
use shape_gallery::shape::{Cap, DrawCommand, Geometry};
use shape_gallery::sketch::{draw_line, intersection_point};
use shape_gallery::transform::Transform;
use shape_gallery::trig::TAU;
use shape_gallery::vector::{Quat, Vec3};

fn fx(raw: i64) -> Fixed {
    Fixed { raw }
}

fn v3(x: i64, y: i64, z: i64) -> Vec3 {
    Vec3 { x: fx(x), y: fx(y), z: fx(z) }
}

fn at(x: i64, y: i64, z: i64) -> Transform {
    Transform {
        translation: v3(x, y, z),
        orientation: Quat::identity(),
        rotation: fx(0),
        scale: v3(1_000_000, 1_000_000, 1_000_000),
    }
}

fn disc(x: i64, y: i64, color: Color, hollow: bool, radius: i64) -> DrawCommand {
    DrawCommand {
        transform: at(x, y, 0),
        color,
        thickness: fx(25_000),
        hollow,
        geometry: Geometry::Sector {
            radius: fx(radius),
            start_angle: fx(0),
            sweep: fx(TAU),
            cap: Cap::Butt,
        },
    }
}

fn stroke(start: Vec3, end: Vec3) -> DrawCommand {
    DrawCommand {
        transform: at(0, 0, 0),
        color: Color::white(),
        thickness: fx(25_000),
        hollow: true,
        geometry: Geometry::Segment { start, end, cap: Cap::Round },
    }
}

#[test]
fn the_circles_meet_at_the_root_of_twelve() {
    assert_eq!(intersection_point(), v3(0, 3_464_101, 0));
}

#[test]
fn the_sketch_draws_eight_shapes() {
    let done = draw_line(Painter::new());
    let top = v3(0, 3_464_101, 0);
    assert_eq!(
        done.commands,
        vec![
            stroke(v3(-2_000_000, 0, 0), v3(2_000_000, 0, 0)),
            disc(-2_000_000, 0, Color::yellow(), false, 100_000),
            disc(2_000_000, 0, Color::yellow(), false, 100_000),
            disc(-2_000_000, 0, Color::yellow(), true, 4_000_000),
            disc(2_000_000, 0, Color::yellow(), true, 4_000_000),
            disc(0, 3_464_101, Color::yellow(), false, 100_000),
            stroke(v3(-2_000_000, 0, 0), top),
            stroke(v3(2_000_000, 0, 0), top),
        ]
    );
}

#[test]
fn the_sketch_ends_where_it_started() {
    let done = draw_line(Painter::new());
    assert_eq!(done.transform, Transform::identity());
    assert_eq!(done.color, Color::white());
    assert_eq!(done.thickness, fx(25_000));
    assert_eq!(done.cap, Cap::Round);
    assert!(!done.hollow);

    let mut moved = Painter::new();
    moved.translate(Vec3::new(500, -1500, 250));
    let start = moved.snapshot();
    let again = draw_line(moved);
    assert_eq!(again.transform, start);
    assert_eq!(again.commands[5].transform, at(500_000, 1_964_101, 250_000));
}

#[test]
fn the_sketch_can_be_drawn_frame_after_frame() {
    let first = draw_line(Painter::new());
    let shapes = first.commands.clone();
    let second = draw_line(first);
    assert_eq!(second.commands.len(), 16);
    assert_eq!(second.commands[..8], shapes[..]);
    assert_eq!(second.commands[8..], shapes[..]);
}

#[test]
fn the_shapes_of_the_sketch_do_not_depend_on_the_pose() {
    let plain = draw_line(Painter::new());
    let mut turned = Painter::new();
    turned.transform.orientation =
        Quat { x: fx(707_107), y: fx(0), z: fx(0), w: fx(707_107) };
    turned.rotate_z(Fixed::from_millis(700));
    turned.scale(Vec3::new(2000, 500, 1000));
    turned.translate(Vec3::new(300, -200, 100));
    turned.color = Color::yellow();
    turned.hollow = true;
    let entry = turned.snapshot();
    let done = draw_line(turned);
    assert_eq!(done.commands.len(), 8);
    for (a, b) in plain.commands.iter().zip(done.commands.iter()) {
        assert_eq!(a.geometry, b.geometry);
        assert_eq!(a.color, b.color);
        assert_eq!(a.thickness, b.thickness);
        assert_eq!(a.hollow, b.hollow);
        assert_eq!(b.transform.orientation, entry.orientation);
        assert_eq!(b.transform.rotation, entry.rotation);
        assert_eq!(b.transform.scale, entry.scale);
    }
    assert_eq!(done.commands[0].transform, entry);
    assert_eq!(done.style(), plain.style());
    let back = done.transform.translation;
    assert!((back.x.raw - entry.translation.x.raw).abs() <= 8);
    assert!((back.y.raw - entry.translation.y.raw).abs() <= 8);
    assert!((back.z.raw - entry.translation.z.raw).abs() <= 8);
}
