//! A compass-and-ruler sketch: a line, a circle about each of its ends,
//! and the point above the line where the two circles meet.

use vstd::prelude::*;
use crate::color::Color;
use crate::fixed::Fixed;
use crate::painter::{Painter, PainterState};
use crate::shape::{Cap, DrawCommand, Geometry, Style};
use crate::transform::Transform;
use crate::trig::TAU;
use crate::vector::Vec3;

verus! {

pub open spec fn spec_intersection_point() -> Vec3 {
    Vec3 {
        x: Fixed { raw: 0 },
        y: Fixed::from_int(4).times(Fixed::from_int(4)).minus(
            Fixed::from_int(2).times(Fixed::from_int(2)),
        ).sqrt(),
        z: Fixed { raw: 0 },
    }
}

/// Where two circles of radius four about the points two to the left and
/// two to the right of the origin meet above the line that joins them.
#[verifier::when_used_as_spec(spec_intersection_point)]
pub fn intersection_point() -> (v: Vec3)
    ensures
        v == spec_intersection_point(),
{
    Vec3 {
        x: Fixed { raw: 0 },
        y: Fixed::from_int(4).times(Fixed::from_int(4)).minus(
            Fixed::from_int(2).times(Fixed::from_int(2)),
        ).sqrt(),
        z: Fixed { raw: 0 },
    }
}

/// A thin white round-capped line of the sketch, drawn at `pose`.
pub open spec fn sketch_line(pose: Transform, start: Vec3, end: Vec3) -> DrawCommand {
    DrawCommand {
        transform: pose,
        color: Color::white(),
        thickness: Fixed::millis(25),
        hollow: true,
        geometry: Geometry::Segment { start, end, cap: Cap::Round },
    }
}

/// A yellow disc or ring of the sketch, drawn at `pose`.
pub open spec fn sketch_disc(pose: Transform, hollow: bool, radius: Fixed) -> DrawCommand {
    DrawCommand {
        transform: pose,
        color: Color::yellow(),
        thickness: Fixed::millis(25),
        hollow,
        geometry: Geometry::Sector {
            radius,
            start_angle: Fixed { raw: 0 },
            sweep: Fixed { raw: TAU },
            cap: Cap::Butt,
        },
    }
}

/// The pose at which the painter stands after `stops` of the eight moves
/// of the sketch: to the left end, across to the right end, back to the
/// middle, the same three once more, up to the meeting point, and back.
pub open spec fn sketch_pose(entry: Transform, stops: int) -> Transform
    decreases stops,
{
    if stops <= 0 {
        entry
    } else {
        let before = sketch_pose(entry, stops - 1);
        if stops == 2 || stops == 5 {
            before.translated(Vec3::at(4000, 0, 0))
        } else if stops == 7 {
            before.translated(spec_intersection_point())
        } else if stops == 8 {
            before.translated(spec_intersection_point().scaled(Fixed::units(-1)))
        } else {
            before.translated(Vec3::at(-2000, 0, 0))
        }
    }
}

/// The eight shapes of the sketch for a painter that starts at `entry`,
/// in the order in which they are drawn.
pub open spec fn sketch_shapes(entry: Transform) -> Seq<DrawCommand> {
    let top = spec_intersection_point();
    seq![
        sketch_line(entry, Vec3::at(-2000, 0, 0), Vec3::at(2000, 0, 0)),
        sketch_disc(sketch_pose(entry, 1), false, Fixed::millis(100)),
        sketch_disc(sketch_pose(entry, 2), false, Fixed::millis(100)),
        sketch_disc(sketch_pose(entry, 4), true, Fixed::units(4)),
        sketch_disc(sketch_pose(entry, 5), true, Fixed::units(4)),
        sketch_disc(sketch_pose(entry, 7), false, Fixed::millis(100)),
        sketch_line(sketch_pose(entry, 8), Vec3::at(-2000, 0, 0), top),
        sketch_line(sketch_pose(entry, 8), Vec3::at(2000, 0, 0), top),
    ]
}

/// The style that the sketch leaves behind, for a painter that came with
/// the style `arriving`.
pub open spec fn sketch_style(arriving: Style) -> Style {
    Style {
        color: Color::white(),
        thickness: Fixed::millis(25),
        hollow: false,
        cap: Cap::Round,
        ..arriving
    }
}

/// What the steps of the sketch come to: the eight shapes behind
/// whatever was drawn before, whatever the pose and the style that the
/// painter came with. Neither the shapes nor their colours depend on the
/// pose; the pose only says where they stand.
pub proof fn lemma_sketch_shapes(p: PainterState)
    ensures
        spec_draw_line(p).commands == p.commands + sketch_shapes(p.transform),
        spec_draw_line(p).transform == sketch_pose(p.transform, 8),
        spec_draw_line(p).style == sketch_style(p.style),
{
    reveal(spec_draw_line);
    reveal_with_fuel(sketch_pose, 9);
    assert(spec_draw_line(p).commands =~= p.commands + sketch_shapes(p.transform));
}

#[verifier::opaque]
pub open spec fn spec_draw_line(p: PainterState) -> PainterState {
    let top = spec_intersection_point();
    let p = p.thickness(Fixed::from_millis(25)).color(Color::white()).cap(Cap::Round).line(
        Vec3::at(-2000, 0, 0),
        Vec3::at(2000, 0, 0),
    );
    let p = p.hollow(false).thickness(Fixed::from_millis(25)).color(Color::yellow()).translate(
        Vec3::at(-2000, 0, 0),
    ).circle(Fixed::from_millis(100)).translate(Vec3::at(4000, 0, 0)).circle(
        Fixed::from_millis(100),
    ).translate(Vec3::at(-2000, 0, 0));
    let p = p.hollow(true).thickness(Fixed::from_millis(25)).translate(Vec3::at(-2000, 0, 0))
        .circle(Fixed::from_int(4)).translate(Vec3::at(4000, 0, 0)).circle(Fixed::from_int(4))
        .translate(Vec3::at(-2000, 0, 0));
    let p = p.hollow(false).thickness(Fixed::from_millis(25)).translate(top).circle(
        Fixed::from_millis(100),
    ).translate(top.scaled(Fixed::units(-1)));
    p.thickness(Fixed::from_millis(25)).color(Color::white()).cap(Cap::Round).line(
        Vec3::at(-2000, 0, 0),
        top,
    ).line(Vec3::at(2000, 0, 0), top)
}

/// Draws the sketch: a thin white line, a yellow dot on each of its
/// ends, a circle about each end through the other, a dot where the
/// circles meet, and the two lines from the ends to that point. After
/// each step the painter moves back by the way it came, which brings it
/// back exactly where it is neither turned nor scaled, and to within the
/// rounding of the moves elsewhere. Its style is left as the last step
/// set it.
pub fn draw_line(painter: Painter) -> (done: Painter)
    ensures
        done@ == spec_draw_line(painter@),
        done@.commands == painter@.commands + sketch_shapes(painter@.transform),
        done@.transform == sketch_pose(painter@.transform, 8),
        done@.style == sketch_style(painter@.style),
        done@.drew_at_most(painter@, 8),
{
    reveal(spec_draw_line);
    proof {
        lemma_sketch_shapes(painter@);
    }
    let mut painter = painter;
    painter.thickness = Fixed::from_millis(25);
    painter.color = Color::white();
    painter.cap = Cap::Round;
    painter.line(Vec3::new(-2000, 0, 0), Vec3::new(2000, 0, 0));

    painter.hollow = false;
    painter.thickness = Fixed::from_millis(25);
    painter.color = Color::yellow();

    painter.translate(Vec3::new(-2000, 0, 0));
    painter.circle(Fixed::from_millis(100));
    painter.translate(Vec3::new(4000, 0, 0));
    painter.circle(Fixed::from_millis(100));

    painter.translate(Vec3::new(-2000, 0, 0));

    painter.hollow = true;
    painter.thickness = Fixed::from_millis(25);

    painter.translate(Vec3::new(-2000, 0, 0));
    painter.circle(Fixed::from_int(4));

    painter.translate(Vec3::new(4000, 0, 0));
    painter.circle(Fixed::from_int(4));

    painter.translate(Vec3::new(-2000, 0, 0));

    let top = intersection_point();

    painter.hollow = false;
    painter.thickness = Fixed::from_millis(25);
    painter.translate(top);
    painter.circle(Fixed::from_millis(100));

    painter.translate(top.scaled(Fixed::from_int(-1)));

    painter.thickness = Fixed::from_millis(25);
    painter.color = Color::white();
    painter.cap = Cap::Round;

    painter.line(Vec3::new(-2000, 0, 0), top);
    painter.line(Vec3::new(2000, 0, 0), top);
    painter
}

} // verus!
