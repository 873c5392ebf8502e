//! The animated gallery: a grid of cells, each showing one family of shapes.
//!
//! The gallery is a function of the time and of a range of cell indices. For
//! each index it puts the painter at that cell of the grid and runs the
//! exhibit that lives there, if any. The time is reduced to one `PERIOD`
//! before anything reads it, so the whole animation repeats exactly.

use vstd::prelude::*;
use std::ops::Range;
use crate::color::{Color, Pastel};
use crate::fixed::{quot, rem, Fixed};
use crate::painter::{lemma_drew_more, Painter, PainterState};
use crate::shape::{Cap, DrawCommand, Style};
use crate::transform::Transform;
use crate::trig::{HALF_PI, PI, TAU};
use crate::vector::{Vec2, Vec3, Vec4};

verus! {

/// The time after which the animation repeats: two turns, in millionths of
/// a second.
pub const PERIOD: i64 = 12_566_376;

/// Two thirds of a turn.
pub const TWO_THIRDS_TURN: i64 = 4_188_792;

/// Number of cells in one row of the grid.
pub const COLUMNS: i32 = 5;

/// Distance between the centres of two neighbouring cells, in whole units.
pub const CELL_SIZE: i32 = 4;

/// The animated demonstrations, one for each occupied cell of the grid.
#[derive(Clone, Copy, Debug, PartialEq, Eq, Structural)]
pub enum Exhibit {
    /// One capped line.
    Line,
    /// A rounded, hollow square that turns while its outline swells.
    Rect,
    /// A disc beside a ring.
    Circles,
    /// A ring that grows and shrinks.
    Pulse,
    /// Five rings that swell, thin out and vanish in turn.
    Bubbles,
    /// A sector beside a capped arc.
    Arcs,
    /// An arc that chases its own tail.
    Sweep,
    /// A gauge with a moving fill between two rails.
    Meter,
    /// Four polygons, sharp and rounded, hollow and filled.
    Polygons,
    /// A rounded polygon whose side count slides from three to nine.
    Morph,
    /// A drifting field of hexagons and triangles that fades at its rim.
    Tiling,
}

pub open spec fn spec_exhibit_at(index: i32) -> Option<Exhibit> {
    if index == 0 {
        Some(Exhibit::Line)
    } else if index == 6 {
        Some(Exhibit::Rect)
    } else if index == 2 {
        Some(Exhibit::Circles)
    } else if index == 7 {
        Some(Exhibit::Pulse)
    } else if index == 12 {
        Some(Exhibit::Bubbles)
    } else if index == 3 {
        Some(Exhibit::Arcs)
    } else if index == 8 {
        Some(Exhibit::Sweep)
    } else if index == 13 {
        Some(Exhibit::Meter)
    } else if index == 4 {
        Some(Exhibit::Polygons)
    } else if index == 9 {
        Some(Exhibit::Morph)
    } else if index == 14 {
        Some(Exhibit::Tiling)
    } else {
        None
    }
}

/// The exhibit that lives in cell `index`, if the cell is occupied.
#[verifier::when_used_as_spec(spec_exhibit_at)]
pub fn exhibit_at(index: i32) -> (e: Option<Exhibit>)
    ensures
        e == spec_exhibit_at(index),
{
    match index {
        0 => Some(Exhibit::Line),
        6 => Some(Exhibit::Rect),
        2 => Some(Exhibit::Circles),
        7 => Some(Exhibit::Pulse),
        12 => Some(Exhibit::Bubbles),
        3 => Some(Exhibit::Arcs),
        8 => Some(Exhibit::Sweep),
        13 => Some(Exhibit::Meter),
        4 => Some(Exhibit::Polygons),
        9 => Some(Exhibit::Morph),
        14 => Some(Exhibit::Tiling),
        _ => None,
    }
}

/// Column of cell `index`, counted from the middle column.
pub open spec fn cell_column(index: int) -> int {
    rem(index, COLUMNS as int) - 2
}

/// Row of cell `index`, counted from the second row.
pub open spec fn cell_row(index: int) -> int {
    quot(index, COLUMNS as int) - 1
}

pub open spec fn spec_cell_offset(index: i32) -> Vec3 {
    Vec3 {
        x: Fixed::units(CELL_SIZE * cell_column(index as int)),
        y: Fixed::units(-CELL_SIZE * cell_row(index as int)),
        z: Fixed { raw: 0 },
    }
}

/// Where cell `index` lies relative to the origin of the gallery: columns
/// run to the right, rows run downward.
#[verifier::when_used_as_spec(spec_cell_offset)]
pub fn cell_offset(index: i32) -> (v: Vec3)
    ensures
        v == spec_cell_offset(index),
        v.x@ == 4_000_000 * cell_column(index as int),
        v.y@ == -4_000_000 * cell_row(index as int),
        -2 - COLUMNS < cell_column(index as int) < COLUMNS - 2,
{
    let column: i32 = index % COLUMNS - 2;
    let row: i32 = index / COLUMNS - 1;
    let down: i32 = CELL_SIZE * row;
    Vec3 {
        x: Fixed::from_int(CELL_SIZE * column),
        y: Fixed::from_int(-down),
        z: Fixed { raw: 0 },
    }
}

pub open spec fn spec_wave(angle: Fixed) -> Fixed {
    angle.sin().plus(Fixed::from_int(1)).over(Fixed::from_int(2))
}

/// A smooth swing between zero and one: `(sin(angle) + 1) / 2`.
#[verifier::when_used_as_spec(spec_wave)]
pub fn wave(angle: Fixed) -> (w: Fixed)
    ensures
        w == spec_wave(angle),
        0 <= w@ <= 1_000_000,
{
    let lifted = angle.sin().plus(Fixed::from_int(1));
    assert(0 <= lifted@ <= 2_000_000);
    assert(0 <= lifted@ * 1_000_000 / 2_000_000 <= 1_000_000);
    lifted.over(Fixed::from_int(2))
}

#[verifier::opaque]
pub open spec fn spec_line_exhibit(p: PainterState) -> PainterState {
    p.color(Color::midnight_blue().spec_pastel().scaled(Fixed::from_millis(1600))).cap(
        Cap::Round,
    ).line(Vec3::at(-1000, -1000, 0), Vec3::at(1000, -1000, 0))
}

/// One round-capped line along the lower edge of the cell.
pub fn line_exhibit(painter: &mut Painter)
    ensures
        final(painter)@ == spec_line_exhibit(old(painter)@),
        final(painter)@.drew_at_most(old(painter)@, 1),
{
    reveal(spec_line_exhibit);
    painter.color = Color::midnight_blue().pastel().scaled(Fixed::from_millis(1600));
    painter.cap = Cap::Round;
    painter.line(Vec3::new(-1000, -1000, 0), Vec3::new(1000, -1000, 0));
}

#[verifier::opaque]
pub open spec fn spec_rect_exhibit(p: PainterState, seconds: Fixed) -> PainterState {
    let bar_fill = Fixed::from_millis(100).plus(Fixed::from_millis(900).times(wave(seconds)));
    let square_fill = wave(seconds.times(Fixed::from_int(3)));
    p.hollow(true).color(Color::sea_green().spec_pastel()).thickness(
        Fixed::from_millis(200).plus(Fixed::from_millis(1300).times(square_fill)),
    ).corner_radii(Vec4::splat(Fixed::from_int(1))).rotate_z(
        bar_fill.times(Fixed { raw: TAU }),
    ).rect(Vec2::splat(Fixed::from_millis(2500)))
}

/// A hollow rounded square. It turns back and forth with the time, and
/// its outline swells three times as fast.
pub fn rect_exhibit(painter: &mut Painter, seconds: Fixed)
    ensures
        final(painter)@ == spec_rect_exhibit(old(painter)@, seconds),
        final(painter)@.drew_at_most(old(painter)@, 1),
{
    reveal(spec_rect_exhibit);
    let bar_fill = Fixed::from_millis(100).plus(Fixed::from_millis(900).times(wave(seconds)));
    let square_fill = wave(seconds.times(Fixed::from_int(3)));
    painter.hollow = true;
    painter.color = Color::sea_green().pastel();
    painter.thickness = Fixed::from_millis(200).plus(
        Fixed::from_millis(1300).times(square_fill),
    );
    painter.corner_radii = Vec4::splat(Fixed::from_int(1));
    painter.rotate_z(bar_fill.times(Fixed { raw: TAU }));
    painter.rect(Vec2::splat(Fixed::from_millis(2500)));
}

#[verifier::opaque]
pub open spec fn spec_circles_exhibit(p: PainterState) -> PainterState {
    p.hollow(false).color(Color::orange().spec_pastel().scaled(Fixed::from_millis(700)))
        .translate(Vec3::at(800, 800, 0)).circle(Fixed::from_millis(800)).hollow(true)
        .thickness(Fixed::from_millis(200)).color(
        Color::orange().spec_pastel().scaled(Fixed::from_millis(1400)),
    ).translate(Vec3::at(-1600, -1600, 0)).circle(Fixed::from_millis(800))
}

/// A disc in the upper right of the cell and a ring in the lower left.
pub fn circles_exhibit(painter: &mut Painter)
    ensures
        final(painter)@ == spec_circles_exhibit(old(painter)@),
        final(painter)@.drew_at_most(old(painter)@, 2),
{
    reveal(spec_circles_exhibit);
    painter.hollow = false;
    painter.color = Color::orange().pastel().scaled(Fixed::from_millis(700));
    painter.translate(Vec3::new(800, 800, 0));
    painter.circle(Fixed::from_millis(800));

    painter.hollow = true;
    painter.thickness = Fixed::from_millis(200);
    painter.color = Color::orange().pastel().scaled(Fixed::from_millis(1400));
    painter.translate(Vec3::new(-1600, -1600, 0));
    painter.circle(Fixed::from_millis(800));
}

#[verifier::opaque]
pub open spec fn spec_pulse_exhibit(p: PainterState, seconds: Fixed) -> PainterState {
    let circle_fill = wave(seconds.times(Fixed::from_int(2)));
    p.hollow(true).color(Color::orange().spec_pastel()).thickness(Fixed::from_millis(500))
        .circle(Fixed::from_millis(1500).times(circle_fill))
}

/// A ring whose radius swings between nothing and one and a half.
pub fn pulse_exhibit(painter: &mut Painter, seconds: Fixed)
    ensures
        final(painter)@ == spec_pulse_exhibit(old(painter)@, seconds),
        final(painter)@.drew_at_most(old(painter)@, 1),
{
    reveal(spec_pulse_exhibit);
    let circle_fill = wave(seconds.times(Fixed::from_int(2)));
    painter.hollow = true;
    painter.color = Color::orange().pastel();
    painter.thickness = Fixed::from_millis(500);
    painter.circle(Fixed::from_millis(1500).times(circle_fill));
}

#[verifier::opaque]
pub open spec fn spec_arcs_exhibit(p: PainterState) -> PainterState {
    p.hollow(false).cap(Cap::Butt).color(
        Color::crimson().spec_pastel().scaled(Fixed::from_millis(700)),
    ).translate(Vec3::at(800, 800, 0)).arc(
        Fixed::from_millis(800),
        Fixed { raw: 0 },
        Fixed { raw: TWO_THIRDS_TURN },
    ).hollow(true).cap(Cap::Round).thickness(Fixed::from_millis(400)).color(
        Color::crimson().spec_pastel().scaled(Fixed::from_millis(1400)),
    ).translate(Vec3::at(-1600, -1600, 0)).arc(
        Fixed::from_millis(800),
        Fixed { raw: 0 },
        Fixed { raw: TWO_THIRDS_TURN },
    )
}

/// A filled sector of two thirds of a turn, and the same arc as a
/// round-capped stroke.
pub fn arcs_exhibit(painter: &mut Painter)
    ensures
        final(painter)@ == spec_arcs_exhibit(old(painter)@),
        final(painter)@.drew_at_most(old(painter)@, 2),
{
    reveal(spec_arcs_exhibit);
    painter.hollow = false;
    painter.cap = Cap::Butt;
    painter.color = Color::crimson().pastel().scaled(Fixed::from_millis(700));
    painter.translate(Vec3::new(800, 800, 0));
    painter.arc(Fixed::from_millis(800), Fixed { raw: 0 }, Fixed { raw: TWO_THIRDS_TURN });

    painter.hollow = true;
    painter.cap = Cap::Round;
    painter.thickness = Fixed::from_millis(400);
    painter.color = Color::crimson().pastel().scaled(Fixed::from_millis(1400));
    painter.translate(Vec3::new(-1600, -1600, 0));
    painter.arc(Fixed::from_millis(800), Fixed { raw: 0 }, Fixed { raw: TWO_THIRDS_TURN });
}

#[verifier::opaque]
pub open spec fn spec_sweep_exhibit(p: PainterState, seconds: Fixed) -> PainterState {
    let start_angle = seconds.times(Fixed::from_int(3));
    let end_angle = start_angle.plus(
        Fixed { raw: PI }.times(seconds.sin().plus(Fixed::from_int(1))).times(
            Fixed::from_millis(750),
        ),
    ).plus(Fixed { raw: HALF_PI });
    p.thickness(Fixed::from_millis(500)).hollow(true).color(Color::crimson().spec_pastel())
        .cap(Cap::Butt).arc(Fixed::from_millis(1500), start_angle, end_angle)
}

/// An arc that runs round three times in a period while its length
/// swings between a quarter turn and a full turn.
pub fn sweep_exhibit(painter: &mut Painter, seconds: Fixed)
    ensures
        final(painter)@ == spec_sweep_exhibit(old(painter)@, seconds),
        final(painter)@.drew_at_most(old(painter)@, 1),
{
    reveal(spec_sweep_exhibit);
    let start_angle = seconds.times(Fixed::from_int(3));
    let end_angle = start_angle.plus(
        Fixed { raw: PI }.times(seconds.sin().plus(Fixed::from_int(1))).times(
            Fixed::from_millis(750),
        ),
    ).plus(Fixed { raw: HALF_PI });
    painter.thickness = Fixed::from_millis(500);
    painter.hollow = true;
    painter.color = Color::crimson().pastel();
    painter.cap = Cap::Butt;
    painter.arc(Fixed::from_millis(1500), start_angle, end_angle);
}

#[verifier::opaque]
pub open spec fn spec_polygons_exhibit(p: PainterState) -> PainterState {
    p.thickness(Fixed::from_millis(400)).hollow(true).color(
        Color::purple().spec_pastel().scaled(Fixed::from_millis(600)),
    ).translate(Vec3::at(1000, 1000, 0)).ngon(Fixed::from_int(4), Fixed::from_millis(800))
        .roundness(Fixed::from_millis(100)).hollow(false).color(
        Color::purple().spec_pastel().scaled(Fixed::from_millis(800)),
    ).translate(Vec3::at(-2000, 0, 0)).ngon(Fixed::from_int(3), Fixed::from_millis(800))
        .hollow(true).color(Color::purple().spec_pastel()).translate(Vec3::at(0, -2000, 0))
        .ngon(Fixed::from_int(5), Fixed::from_millis(800)).roundness(Fixed { raw: 0 })
        .hollow(false).color(Color::purple().spec_pastel().scaled(Fixed::from_millis(1200)))
        .translate(Vec3::at(2000, 0, 0)).ngon(Fixed::from_int(6), Fixed::from_millis(800))
}

/// A hollow square, a rounded filled triangle, a rounded hollow pentagon
/// and a filled hexagon, one in each corner of the cell.
pub fn polygons_exhibit(painter: &mut Painter)
    ensures
        final(painter)@ == spec_polygons_exhibit(old(painter)@),
        final(painter)@.drew_at_most(old(painter)@, 4),
{
    reveal(spec_polygons_exhibit);
    painter.thickness = Fixed::from_millis(400);
    painter.hollow = true;
    painter.color = Color::purple().pastel().scaled(Fixed::from_millis(600));
    painter.translate(Vec3::new(1000, 1000, 0));
    painter.ngon(Fixed::from_int(4), Fixed::from_millis(800));

    painter.roundness = Fixed::from_millis(100);
    painter.hollow = false;
    painter.color = Color::purple().pastel().scaled(Fixed::from_millis(800));
    painter.translate(Vec3::new(-2000, 0, 0));
    painter.ngon(Fixed::from_int(3), Fixed::from_millis(800));

    painter.hollow = true;
    painter.color = Color::purple().pastel();
    painter.translate(Vec3::new(0, -2000, 0));
    painter.ngon(Fixed::from_int(5), Fixed::from_millis(800));

    painter.roundness = Fixed { raw: 0 };
    painter.hollow = false;
    painter.color = Color::purple().pastel().scaled(Fixed::from_millis(1200));
    painter.translate(Vec3::new(2000, 0, 0));
    painter.ngon(Fixed::from_int(6), Fixed::from_millis(800));
}

pub open spec fn spec_morph_sides(seconds: Fixed) -> Fixed {
    Fixed::from_int(3).plus(seconds.sin().plus(Fixed::from_int(1)).times(Fixed::from_int(3)))
}

/// The side count of the morphing polygon: it swings between three and
/// nine with the sine of the time, and is never rounded to a whole
/// number.
#[verifier::when_used_as_spec(spec_morph_sides)]
pub fn morph_sides(seconds: Fixed) -> (sides: Fixed)
    ensures
        sides == spec_morph_sides(seconds),
        sides@ == 3_000_000 + 3 * (seconds.sin()@ + 1_000_000),
        3_000_000 <= sides@ <= 9_000_000,
{
    let lifted = seconds.sin().plus(Fixed::from_int(1));
    assert(lifted@ * 3_000_000 / 1_000_000 == 3 * lifted@);
    Fixed::from_int(3).plus(lifted.times(Fixed::from_int(3)))
}

#[verifier::opaque]
pub open spec fn spec_morph_exhibit(p: PainterState, seconds: Fixed) -> PainterState {
    p.hollow(true).thickness(Fixed::from_millis(500)).color(Color::purple().spec_pastel())
        .roundness(Fixed::from_millis(500)).ngon(morph_sides(seconds), Fixed::from_millis(1500))
}

/// A rounded hollow polygon whose side count swings between three and
/// nine.
pub fn morph_exhibit(painter: &mut Painter, seconds: Fixed)
    ensures
        final(painter)@ == spec_morph_exhibit(old(painter)@, seconds),
        final(painter)@.drew_at_most(old(painter)@, 1),
{
    reveal(spec_morph_exhibit);
    painter.hollow = true;
    painter.thickness = Fixed::from_millis(500);
    painter.color = Color::purple().pastel();
    painter.roundness = Fixed::from_millis(500);
    painter.ngon(morph_sides(seconds), Fixed::from_millis(1500));
}

pub open spec fn spec_swell(x: Fixed) -> Fixed {
    if x@ <= 0 {
        Fixed { raw: 0 }
    } else {
        let x2 = x.times(x);
        x2.times(x2.times(x2).root5())
    }
}

/// The growth curve of a bubble: `x` to the power 2.8, as the square of
/// `x` times the fifth root of its fourth power. Zero for `x <= 0`.
#[verifier::when_used_as_spec(spec_swell)]
pub fn swell(x: Fixed) -> (r: Fixed)
    ensures
        r == spec_swell(x),
{
    if x.raw <= 0 {
        Fixed { raw: 0 }
    } else {
        let x2 = x.times(x);
        x2.times(x2.times(x2).root5())
    }
}

#[verifier::opaque]
pub open spec fn spec_draw_bubble(p: PainterState, seconds: Fixed, position: Vec3, scale: Fixed)
    -> PainterState {
    let seconds = seconds.modulo(Fixed { raw: PI });
    let circle_size = swell(seconds).over(Fixed::from_int(40)).times(scale);
    p.thickness(
        swell(Fixed::from_millis(2500)).over(Fixed::from_int(40)).times(scale).minus(circle_size),
    ).hollow(true).color(Color::orange().spec_pastel().plus(Color::white().scaled(circle_size)))
        .translate(
        position.plus(
            Vec3::at(0, 1000, 0).scaled(circle_size).scaled(Fixed::from_int(2)).scaled(scale),
        ),
    ).circle(circle_size)
}

/// One bubble: a ring that rises from `position` while it swells, grows
/// paler and thinner, and is gone once its outline has no width left. It
/// starts over every half turn of the time.
pub fn draw_bubble(painter: &mut Painter, seconds: Fixed, position: Vec3, scale: Fixed)
    ensures
        final(painter)@ == spec_draw_bubble(old(painter)@, seconds, position, scale),
        final(painter)@.drew_at_most(old(painter)@, 1),
{
    reveal(spec_draw_bubble);
    let seconds = seconds.modulo(Fixed { raw: PI });
    let circle_size = swell(seconds).over(Fixed::from_int(40)).times(scale);

    painter.thickness = swell(Fixed::from_millis(2500)).over(Fixed::from_int(40)).times(
        scale,
    ).minus(circle_size);
    painter.hollow = true;
    painter.color = Color::orange().pastel().plus(Color::white().scaled(circle_size));
    painter.translate(
        position.plus(
            Vec3::new(0, 1000, 0).scaled(circle_size).scaled(Fixed::from_int(2)).scaled(scale),
        ),
    );
    painter.circle(circle_size);
}

#[verifier::opaque]
pub open spec fn spec_bubbles_exhibit(p: PainterState, seconds: Fixed) -> PainterState {
    let p = p.translate(Vec3::at(0, -600, 0));
    let home = p.transform;
    let p = spec_draw_bubble(p, seconds, Vec3::at(1000, -600, 0), Fixed::from_millis(1100));
    let p = spec_draw_bubble(
        p.restore(home),
        seconds.plus(Fixed::from_millis(500)),
        Vec3::at(0, -1000, 0),
        Fixed::from_millis(1700),
    );
    let p = spec_draw_bubble(
        p.restore(home),
        seconds.plus(Fixed { raw: PI }.over(Fixed::from_int(3))),
        Vec3::at(-1000, -1000, 0),
        Fixed::from_millis(1300),
    );
    let p = spec_draw_bubble(
        p.restore(home),
        seconds.plus(Fixed { raw: PI }.over(Fixed::from_int(2))),
        Vec3::at(-500, -1200, 0),
        Fixed::from_millis(1900),
    );
    spec_draw_bubble(
        p.restore(home),
        seconds.plus(Fixed { raw: PI }.over(Fixed::from_millis(1200))),
        Vec3::at(700, -1400, 0),
        Fixed::from_millis(1400),
    )
}

/// Five bubbles of different sizes that start at different moments,
/// each drawn from the same point below the middle of the cell.
pub fn bubbles_exhibit(painter: &mut Painter, seconds: Fixed)
    ensures
        final(painter)@ == spec_bubbles_exhibit(old(painter)@, seconds),
        final(painter)@.drew_at_most(old(painter)@, 5),
{
    reveal(spec_bubbles_exhibit);
    painter.translate(Vec3::new(0, -600, 0));
    let home = painter.snapshot();
    let ghost entry = painter@;
    draw_bubble(painter, seconds, Vec3::new(1000, -600, 0), Fixed::from_millis(1100));
    painter.restore(home);
    let ghost one = painter@;
    draw_bubble(
        painter,
        seconds.plus(Fixed::from_millis(500)),
        Vec3::new(0, -1000, 0),
        Fixed::from_millis(1700),
    );
    painter.restore(home);
    let ghost two = painter@;
    draw_bubble(
        painter,
        seconds.plus(Fixed { raw: PI }.over(Fixed::from_int(3))),
        Vec3::new(-1000, -1000, 0),
        Fixed::from_millis(1300),
    );
    painter.restore(home);
    let ghost three = painter@;
    draw_bubble(
        painter,
        seconds.plus(Fixed { raw: PI }.over(Fixed::from_int(2))),
        Vec3::new(-500, -1200, 0),
        Fixed::from_millis(1900),
    );
    painter.restore(home);
    let ghost four = painter@;
    draw_bubble(
        painter,
        seconds.plus(Fixed { raw: PI }.over(Fixed::from_millis(1200))),
        Vec3::new(700, -1400, 0),
        Fixed::from_millis(1400),
    );
    proof {
        lemma_drew_more(two, one, entry, 1, 1);
        lemma_drew_more(three, two, entry, 2, 1);
        lemma_drew_more(four, three, entry, 3, 1);
        lemma_drew_more(painter@, four, entry, 4, 1);
    }
}

#[verifier::opaque]
pub open spec fn spec_meter_exhibit(p: PainterState, seconds: Fixed) -> PainterState {
    let meter_fill = wave(seconds);
    let meter_size = Fixed { raw: PI }.times(Fixed::from_millis(1500));
    let start_angle = meter_size.negated().over(Fixed::from_int(2));
    let end_angle = start_angle.plus(meter_fill.times(meter_size));
    let offset = Vec3::at(0, 1000, 0).rotated_z(start_angle).scaled(Fixed::from_millis(1100));
    p.hollow(true).cap(Cap::Round).thickness(Fixed::from_millis(400)).color(
        Color::crimson().spec_pastel().scaled(
            Fixed::from_int(1).over(
                Fixed::from_millis(800).plus(meter_fill.times(Fixed::from_millis(600))),
            ),
        ),
    ).arc(Fixed::from_millis(1300), start_angle, end_angle).cap(Cap::Butt).thickness(
        Fixed::from_millis(200),
    ).color(Color::white()).arc(Fixed::from_millis(1600), start_angle, start_angle.negated())
        .arc(Fixed::from_millis(800), start_angle, start_angle.negated()).translate(offset).arc(
        Fixed::from_millis(500),
        start_angle.plus(Fixed { raw: PI }.times(Fixed::from_millis(1500))),
        start_angle.plus(Fixed::from_millis(2500).times(Fixed { raw: PI })),
    ).translate(offset.negated()).translate(
        Vec3::at(0, 1000, 0).rotated_z(start_angle.negated()).scaled(Fixed::from_millis(1100)),
    ).arc(
        Fixed::from_millis(500),
        start_angle.plus(Fixed { raw: PI }),
        start_angle.plus(Fixed::from_int(2).times(Fixed { raw: PI })),
    )
}

/// A gauge of three quarters of a turn: a capped fill that follows the
/// time and darkens as it grows, between two thin rails that are joined
/// by a half circle at either end.
pub fn meter_exhibit(painter: &mut Painter, seconds: Fixed)
    ensures
        final(painter)@ == spec_meter_exhibit(old(painter)@, seconds),
        final(painter)@.drew_at_most(old(painter)@, 5),
{
    reveal(spec_meter_exhibit);
    let meter_fill = wave(seconds);
    let meter_size = Fixed { raw: PI }.times(Fixed::from_millis(1500));

    let start_angle = meter_size.negated().over(Fixed::from_int(2));
    let end_angle = start_angle.plus(meter_fill.times(meter_size));

    painter.hollow = true;
    painter.cap = Cap::Round;
    painter.thickness = Fixed::from_millis(400);
    painter.color = Color::crimson().pastel().scaled(
        Fixed::from_int(1).over(
            Fixed::from_millis(800).plus(meter_fill.times(Fixed::from_millis(600))),
        ),
    );
    painter.arc(Fixed::from_millis(1300), start_angle, end_angle);

    painter.cap = Cap::Butt;
    painter.thickness = Fixed::from_millis(200);
    painter.color = Color::white();
    painter.arc(Fixed::from_millis(1600), start_angle, start_angle.negated());
    painter.arc(Fixed::from_millis(800), start_angle, start_angle.negated());

    let offset = Vec3::new(0, 1000, 0).rotated_z(start_angle).scaled(Fixed::from_millis(1100));
    painter.translate(offset);
    painter.arc(
        Fixed::from_millis(500),
        start_angle.plus(Fixed { raw: PI }.times(Fixed::from_millis(1500))),
        start_angle.plus(Fixed::from_millis(2500).times(Fixed { raw: PI })),
    );
    painter.translate(offset.negated());

    painter.translate(
        Vec3::new(0, 1000, 0).rotated_z(start_angle.negated()).scaled(Fixed::from_millis(1100)),
    );
    painter.arc(
        Fixed::from_millis(500),
        start_angle.plus(Fixed { raw: PI }),
        start_angle.plus(Fixed::from_int(2).times(Fixed { raw: PI })),
    );
}

/// Corner radius of the hexagons of the tiling, in thousandths.
pub const HEX_RADIUS: i32 = 350;

/// Distance from the middle of the cell at which the tiling ends, in
/// thousandths.
pub const BOUNDS: i32 = 1800;

#[verifier::opaque]
pub open spec fn spec_draw_gon(p: PainterState, origin: Vec3, sides: Fixed, radius: Fixed)
    -> PainterState {
    let dist = p.transform.translation.minus(origin).over(p.transform.scale).length();
    if dist.at_most(Fixed::from_millis(BOUNDS)) {
        let ratio = Fixed::from_int(1).minus(
            dist.larger(Fixed::from_millis(500)).over(Fixed::from_millis(BOUNDS)),
        );
        p.color(Color::purple().spec_pastel().with_alpha(ratio)).ngon(
            sides,
            radius.times(ratio.root5()).times(Fixed::from_millis(800)),
        )
    } else {
        p
    }
}

/// One tile, if the painter stands within `BOUNDS` of `origin`: a
/// polygon that gets smaller and more transparent toward the rim.
pub fn draw_gon(painter: &mut Painter, origin: Vec3, sides: Fixed, radius: Fixed)
    ensures
        final(painter)@ == spec_draw_gon(old(painter)@, origin, sides, radius),
        final(painter)@.drew_at_most(old(painter)@, 1),
{
    reveal(spec_draw_gon);
    let dist = painter.transform.translation.minus(origin).over(painter.transform.scale).length();
    if dist.at_most(Fixed::from_millis(BOUNDS)) {
        let ratio = Fixed::from_int(1).minus(
            dist.larger(Fixed::from_millis(500)).over(Fixed::from_millis(BOUNDS)),
        );
        painter.color = Color::purple().pastel().with_alpha(ratio);
        painter.ngon(sides, radius.times(ratio.root5()).times(Fixed::from_millis(800)));
    }
}

pub open spec fn spec_tri_radius() -> Fixed {
    Fixed::from_int(2).times(Fixed::from_millis(HEX_RADIUS)).over(
        Fixed::from_int(2).times(Fixed::from_int(3).sqrt()),
    )
}

#[verifier::opaque]
pub open spec fn spec_draw_position(p: PainterState, pos: Vec3, right: Vec3) -> PainterState {
    let home = p.transform;
    let tri_radius = spec_tri_radius();
    let normal = right.normalized().cross(Vec3::at(0, 0, 1000)).scaled(tri_radius);
    let p = spec_draw_gon(
        p.translate(pos),
        home.translation,
        Fixed::from_int(6),
        Fixed::from_millis(HEX_RADIUS),
    );
    let p = spec_draw_gon(
        p.translate(right.scaled(Fixed::from_millis(500)).minus(normal)),
        home.translation,
        Fixed::from_int(3),
        tri_radius,
    );
    let p = spec_draw_gon(
        p.translate(normal.scaled(Fixed::from_int(2))).rotate_z(Fixed { raw: PI }),
        home.translation,
        Fixed::from_int(3),
        tri_radius,
    );
    p.restore(home)
}

/// One hexagon at `pos` with the two triangles that fill the gap to its
/// right neighbour, one pointing up and one down. The painter ends where
/// it started.
pub fn draw_position(painter: &mut Painter, pos: Vec3, right: Vec3)
    ensures
        final(painter)@ == spec_draw_position(old(painter)@, pos, right),
        final(painter)@.drew_at_most(old(painter)@, 3),
        final(painter)@.transform == old(painter)@.transform,
{
    reveal(spec_draw_position);
    let home = painter.snapshot();

    painter.translate(pos);
    let ghost entry = painter@;
    draw_gon(painter, home.translation, Fixed::from_int(6), Fixed::from_millis(HEX_RADIUS));

    let tri_radius = Fixed::from_int(2).times(Fixed::from_millis(HEX_RADIUS)).over(
        Fixed::from_int(2).times(Fixed::from_int(3).sqrt()),
    );
    let normal = right.normalized().cross(Vec3::new(0, 0, 1000)).scaled(tri_radius);

    painter.translate(right.scaled(Fixed::from_millis(500)).minus(normal));
    let ghost one = painter@;
    draw_gon(painter, home.translation, Fixed::from_int(3), tri_radius);

    painter.translate(normal.scaled(Fixed::from_int(2)));
    painter.rotate_z(Fixed { raw: PI });
    let ghost two = painter@;
    draw_gon(painter, home.translation, Fixed::from_int(3), tri_radius);

    painter.restore(home);
    proof {
        lemma_drew_more(two, one, entry, 1, 1);
        lemma_drew_more(painter@, two, entry, 2, 1);
    }
}

/// Half the number of tiles along each direction of the tiling.
pub const REACH: i32 = 6;

/// Where the tile in row `y` of column `x` goes.
pub open spec fn tile_position(down: Vec3, right: Vec3, offset: Vec3, x: int, y: int) -> Vec3 {
    down.scaled(Fixed::units(y)).plus(right.scaled(Fixed::units(x))).plus(offset)
}

/// The tiles of column `x` from row `y` on.
pub open spec fn spec_tiling_column(
    p: PainterState,
    down: Vec3,
    right: Vec3,
    offset: Vec3,
    x: int,
    y: int,
) -> PainterState
    decreases REACH - y,
{
    if y >= REACH {
        p
    } else {
        spec_tiling_column(
            spec_draw_position(p, tile_position(down, right, offset, x, y), right),
            down,
            right,
            offset,
            x,
            y + 1,
        )
    }
}

/// The columns of the tiling from column `x` on.
pub open spec fn spec_tiling_columns(
    p: PainterState,
    down: Vec3,
    right: Vec3,
    offset: Vec3,
    x: int,
) -> PainterState
    decreases REACH - x,
{
    if x >= REACH {
        p
    } else {
        spec_tiling_columns(
            spec_tiling_column(p, down, right, offset, x, -REACH),
            down,
            right,
            offset,
            x + 1,
        )
    }
}

/// The step from one hexagon to the one below it to the left.
pub open spec fn spec_down_step() -> Vec3 {
    Vec3::at(0, 1000, 0).rotated_z(
        Fixed { raw: PI }.negated().times(Fixed::from_int(7)).over(Fixed::from_int(6)),
    ).scaled(Fixed::from_millis(HEX_RADIUS)).scaled(Fixed::from_int(2))
}

/// The step from one hexagon to its neighbour on the right.
pub open spec fn spec_right_step() -> Vec3 {
    Vec3::at(0, 1000, 0).rotated_z(
        Fixed { raw: PI }.negated().times(Fixed::from_int(5)).over(Fixed::from_int(6)),
    ).scaled(Fixed::from_millis(HEX_RADIUS)).scaled(Fixed::from_int(2))
}

/// How far the whole tiling has drifted at the given time.
pub open spec fn spec_drift(seconds: Fixed) -> Vec3 {
    let third = Fixed { raw: PI }.over(Fixed::from_int(3));
    spec_down_step().scaled(seconds.modulo(Fixed { raw: PI })).shrunk(Fixed { raw: PI }).plus(
        spec_right_step().scaled(seconds.modulo(third)).shrunk(third),
    )
}

#[verifier::opaque]
pub open spec fn spec_tiling_exhibit(p: PainterState, seconds: Fixed) -> PainterState {
    spec_tiling_columns(
        p.hollow(false).roundness(Fixed { raw: 0 }),
        spec_down_step(),
        spec_right_step(),
        spec_drift(seconds),
        -REACH as int,
    )
}

/// A field of twelve by twelve hexagons with triangles between them. It
/// drifts by one tile down and three to the right in the time of half a
/// turn, then jumps back unseen; only the tiles near the middle of the
/// cell are drawn.
pub fn tiling_exhibit(painter: &mut Painter, seconds: Fixed)
    ensures
        final(painter)@ == spec_tiling_exhibit(old(painter)@, seconds),
        final(painter)@.drew_at_most(old(painter)@, 432),
        final(painter)@.transform == old(painter)@.transform,
{
    reveal(spec_tiling_exhibit);
    let down_vec = Vec3::new(0, 1000, 0).rotated_z(
        Fixed { raw: PI }.negated().times(Fixed::from_int(7)).over(Fixed::from_int(6)),
    ).scaled(Fixed::from_millis(HEX_RADIUS)).scaled(Fixed::from_int(2));
    let right_vec = Vec3::new(0, 1000, 0).rotated_z(
        Fixed { raw: PI }.negated().times(Fixed::from_int(5)).over(Fixed::from_int(6)),
    ).scaled(Fixed::from_millis(HEX_RADIUS)).scaled(Fixed::from_int(2));

    let ghost entry = painter@;
    painter.hollow = false;
    painter.roundness = Fixed { raw: 0 };

    let third = Fixed { raw: PI }.over(Fixed::from_int(3));
    let offset = down_vec.scaled(seconds.modulo(Fixed { raw: PI })).shrunk(Fixed { raw: PI }).plus(
        right_vec.scaled(seconds.modulo(third)).shrunk(third),
    );
    let ghost first = painter@;
    assert(first.drew_at_most(entry, 0));
    let mut x: i32 = -REACH;
    while x < REACH
        invariant
            -REACH <= x <= REACH,
            painter@.transform == first.transform,
            painter@.drew_at_most(first, (36 * (x + REACH)) as nat),
            spec_tiling_columns(painter@, down_vec, right_vec, offset, x as int)
                == spec_tiling_columns(first, down_vec, right_vec, offset, -REACH as int),
        decreases REACH - x,
    {
        let ghost top = painter@;
        let mut y: i32 = -REACH;
        while y < REACH
            invariant
                -REACH <= y <= REACH,
                painter@.transform == top.transform,
                painter@.drew_at_most(top, (3 * (y + REACH)) as nat),
                spec_tiling_column(painter@, down_vec, right_vec, offset, x as int, y as int)
                    == spec_tiling_column(
                    top,
                    down_vec,
                    right_vec,
                    offset,
                    x as int,
                    -REACH as int,
                ),
            decreases REACH - y,
        {
            let ghost before = painter@;
            draw_position(
                painter,
                down_vec.scaled(Fixed::from_int(y)).plus(right_vec.scaled(Fixed::from_int(x))).plus(
                    offset,
                ),
                right_vec,
            );
            proof {
                lemma_drew_more(painter@, before, top, (3 * (y + REACH)) as nat, 3);
            }
            y = y + 1;
        }
        proof {
            lemma_drew_more(painter@, top, first, (36 * (x + REACH)) as nat, 36);
        }
        x = x + 1;
    }
    proof {
        lemma_drew_more(painter@, first, entry, 0, 432);
    }
}

#[verifier::opaque]
pub open spec fn spec_run_exhibit(p: PainterState, exhibit: Exhibit, seconds: Fixed)
    -> PainterState {
    match exhibit {
        Exhibit::Line => spec_line_exhibit(p),
        Exhibit::Rect => spec_rect_exhibit(p, seconds),
        Exhibit::Circles => spec_circles_exhibit(p),
        Exhibit::Pulse => spec_pulse_exhibit(p, seconds),
        Exhibit::Bubbles => spec_bubbles_exhibit(p, seconds),
        Exhibit::Arcs => spec_arcs_exhibit(p),
        Exhibit::Sweep => spec_sweep_exhibit(p, seconds),
        Exhibit::Meter => spec_meter_exhibit(p, seconds),
        Exhibit::Polygons => spec_polygons_exhibit(p),
        Exhibit::Morph => spec_morph_exhibit(p, seconds),
        Exhibit::Tiling => spec_tiling_exhibit(p, seconds),
    }
}

/// Runs one exhibit at the painter's current pose, at the given time.
pub fn run_exhibit(painter: &mut Painter, exhibit: Exhibit, seconds: Fixed)
    ensures
        final(painter)@ == spec_run_exhibit(old(painter)@, exhibit, seconds),
        final(painter)@.drew_at_most(old(painter)@, 432),
{
    reveal(spec_run_exhibit);
    match exhibit {
        Exhibit::Line => line_exhibit(painter),
        Exhibit::Rect => rect_exhibit(painter, seconds),
        Exhibit::Circles => circles_exhibit(painter),
        Exhibit::Pulse => pulse_exhibit(painter, seconds),
        Exhibit::Bubbles => bubbles_exhibit(painter, seconds),
        Exhibit::Arcs => arcs_exhibit(painter),
        Exhibit::Sweep => sweep_exhibit(painter, seconds),
        Exhibit::Meter => meter_exhibit(painter, seconds),
        Exhibit::Polygons => polygons_exhibit(painter),
        Exhibit::Morph => morph_exhibit(painter, seconds),
        Exhibit::Tiling => tiling_exhibit(painter, seconds),
    }
}

/// What the gallery does for cell `index`: back to `origin`, out to the
/// cell, and through the exhibit that lives there.
#[verifier::opaque]
pub open spec fn spec_cell(p: PainterState, origin: Transform, seconds: Fixed, index: i32)
    -> PainterState {
    let placed = p.restore(origin).translate(cell_offset(index));
    match exhibit_at(index) {
        Some(exhibit) => spec_run_exhibit(placed, exhibit, seconds),
        None => placed,
    }
}

/// Draws cell `index` of a gallery whose grid starts at `origin`.
pub fn draw_cell(painter: &mut Painter, origin: Transform, seconds: Fixed, index: i32)
    ensures
        final(painter)@ == spec_cell(old(painter)@, origin, seconds, index),
        final(painter)@.drew_at_most(old(painter)@, 432),
{
    reveal(spec_cell);
    painter.restore(origin);
    painter.translate(cell_offset(index));
    match exhibit_at(index) {
        Some(exhibit) => run_exhibit(painter, exhibit, seconds),
        None => {},
    }
}

/// The cells from `next` up to, not including, `end`, in rising order.
pub open spec fn spec_cells(
    p: PainterState,
    origin: Transform,
    seconds: Fixed,
    next: int,
    end: int,
) -> PainterState
    decreases end - next,
{
    if next >= end {
        p
    } else {
        spec_cells(spec_cell(p, origin, seconds, next as i32), origin, seconds, next + 1, end)
    }
}

/// The painter after the gallery has drawn the cells `start..end` at
/// the given time.
pub open spec fn spec_gallery(p: PainterState, seconds: Fixed, start: i32, end: i32)
    -> PainterState {
    spec_cells(
        p,
        p.transform,
        seconds.modulo(Fixed { raw: PERIOD }),
        start as int,
        end as int,
    ).reset()
}

/// The most shapes that a cell can hold.
pub const MOST_SHAPES_IN_A_CELL: i64 = 432;

/// The most shapes that the cells `start..end` can hold.
pub open spec fn spec_most_shapes(start: i32, end: i32) -> nat {
    if start < end {
        (MOST_SHAPES_IN_A_CELL * (end - start)) as nat
    } else {
        0
    }
}

/// Draws the cells `entries` of the gallery as they look at `seconds`.
///
/// The painter's transform on entry is the origin of the grid, and the
/// style it arrives with is what the first exhibit starts from. Each cell
/// starts from the origin again; style carries over from cell to cell.
/// The painter comes back reset, with the new commands behind those it
/// already held: never more than `MOST_SHAPES_IN_A_CELL` for each cell.
pub fn gallery(painter: Painter, seconds: Fixed, entries: Range<i32>) -> (done: Painter)
    ensures
        done@ == spec_gallery(painter@, seconds, entries.start, entries.end),
        done@.drew_at_most(painter@, spec_most_shapes(entries.start, entries.end)),
        done@.transform == Transform::identity(),
        done@.style == Style::initial(),
{
    let mut painter = painter;
    let ghost first = painter@;
    let seconds = seconds.modulo(Fixed { raw: PERIOD });
    let start_pos = painter.snapshot();
    let end: i32 = entries.end;
    let mut i: i32 = entries.start;
    while i < end
        invariant
            entries.start <= i,
            i <= end || i == entries.start,
            painter@.drew_at_most(first, spec_most_shapes(entries.start, i)),
            spec_cells(painter@, start_pos, seconds, i as int, end as int) == spec_cells(
                first,
                start_pos,
                seconds,
                entries.start as int,
                end as int,
            ),
        decreases end - i,
    {
        let ghost before = painter@;
        draw_cell(&mut painter, start_pos, seconds, i);
        proof {
            lemma_drew_more(painter@, before, first, spec_most_shapes(entries.start, i), 432);
        }
        i = i + 1;
    }
    painter.reset();
    painter
}

/// The commands that show the cells `entries` of the gallery at
/// `seconds`, drawn by a fresh painter, in the order in which they are to
/// be painted.
pub fn compose(seconds: Fixed, entries: Range<i32>) -> (commands: Vec<DrawCommand>)
    ensures
        commands@ == spec_gallery(
            PainterState::fresh(),
            seconds,
            entries.start,
            entries.end,
        ).commands,
        forall|i: int| 0 <= i < commands.len() ==> (#[trigger] commands[i]).well_formed(),
        commands.len() <= spec_most_shapes(entries.start, entries.end),
{
    gallery(Painter::new(), seconds, entries).commands
}

} // verus!
