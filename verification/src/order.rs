//! What a painter draws does not depend on what it has drawn before.
//!
//! Every scene only appends: run on a painter that already holds some
//! commands, it leaves those in front and puts behind them exactly what it
//! would have drawn on a painter that held none. So the commands of a
//! range of cells are those of its cells, one after the other.

use vstd::prelude::*;
use crate::fixed::Fixed;
use crate::gallery::{
    spec_arcs_exhibit, spec_bubbles_exhibit, spec_cell, spec_cell_offset, spec_cells,
    spec_circles_exhibit, spec_draw_bubble, spec_draw_gon, spec_draw_position, spec_gallery,
    spec_line_exhibit, spec_meter_exhibit, spec_morph_exhibit, spec_polygons_exhibit,
    spec_pulse_exhibit, spec_rect_exhibit, spec_run_exhibit, spec_sweep_exhibit,
    spec_tiling_column, spec_tiling_columns, spec_tiling_exhibit, spec_tri_radius,
    tile_position, Exhibit, HEX_RADIUS, PERIOD, REACH,
};
use crate::laws::lemma_cells_in_order;
use crate::painter::PainterState;
use crate::shape::{DrawCommand, ShapeRequest};
use crate::transform::Transform;
use crate::trig::PI;
use crate::vector::Vec3;

verus! {

/// The painter `q` with the commands `base` put in front of its own.
pub open spec fn graft(base: Seq<DrawCommand>, q: PainterState) -> PainterState {
    PainterState { transform: q.transform, style: q.style, commands: base + q.commands }
}

/// The painter `q` with nothing drawn.
pub open spec fn blank(q: PainterState) -> PainterState {
    PainterState { transform: q.transform, style: q.style, commands: Seq::empty() }
}

/// Every painter is its blank with its own commands in front.
pub proof fn lemma_graft_blank(q: PainterState)
    ensures
        graft(q.commands, blank(q)) == q,
{
    assert(q.commands + Seq::<DrawCommand>::empty() =~= q.commands);
}

/// A draw call appends behind whatever is there.
pub proof fn lemma_draw_graft(base: Seq<DrawCommand>, q: PainterState, request: ShapeRequest)
    ensures
        graft(base, q).draw(request) == graft(base, q.draw(request)),
{
    assert(graft(base, q).draw(request).commands =~= base + q.draw(request).commands);
}

proof fn lemma_line_graft(base: Seq<DrawCommand>, q: PainterState)
    ensures
        spec_line_exhibit(graft(base, q)) == graft(base, spec_line_exhibit(q)),
{
    reveal(spec_line_exhibit);
    assert(spec_line_exhibit(graft(base, q)).commands =~= base + spec_line_exhibit(
        q,
    ).commands);
}

proof fn lemma_rect_graft(base: Seq<DrawCommand>, q: PainterState, seconds: Fixed)
    ensures
        spec_rect_exhibit(graft(base, q), seconds) == graft(base, spec_rect_exhibit(q, seconds)),
{
    reveal(spec_rect_exhibit);
    assert(spec_rect_exhibit(graft(base, q), seconds).commands =~= base + spec_rect_exhibit(
        q, seconds,
    ).commands);
}

proof fn lemma_circles_graft(base: Seq<DrawCommand>, q: PainterState)
    ensures
        spec_circles_exhibit(graft(base, q)) == graft(base, spec_circles_exhibit(q)),
{
    reveal(spec_circles_exhibit);
    assert(spec_circles_exhibit(graft(base, q)).commands =~= base + spec_circles_exhibit(
        q,
    ).commands);
}

proof fn lemma_pulse_graft(base: Seq<DrawCommand>, q: PainterState, seconds: Fixed)
    ensures
        spec_pulse_exhibit(graft(base, q), seconds) == graft(base, spec_pulse_exhibit(q, seconds)),
{
    reveal(spec_pulse_exhibit);
    assert(spec_pulse_exhibit(graft(base, q), seconds).commands =~= base + spec_pulse_exhibit(
        q, seconds,
    ).commands);
}

proof fn lemma_arcs_graft(base: Seq<DrawCommand>, q: PainterState)
    ensures
        spec_arcs_exhibit(graft(base, q)) == graft(base, spec_arcs_exhibit(q)),
{
    reveal(spec_arcs_exhibit);
    assert(spec_arcs_exhibit(graft(base, q)).commands =~= base + spec_arcs_exhibit(
        q,
    ).commands);
}

proof fn lemma_sweep_graft(base: Seq<DrawCommand>, q: PainterState, seconds: Fixed)
    ensures
        spec_sweep_exhibit(graft(base, q), seconds) == graft(base, spec_sweep_exhibit(q, seconds)),
{
    reveal(spec_sweep_exhibit);
    assert(spec_sweep_exhibit(graft(base, q), seconds).commands =~= base + spec_sweep_exhibit(
        q, seconds,
    ).commands);
}

proof fn lemma_polygons_graft(base: Seq<DrawCommand>, q: PainterState)
    ensures
        spec_polygons_exhibit(graft(base, q)) == graft(base, spec_polygons_exhibit(q)),
{
    reveal(spec_polygons_exhibit);
    assert(spec_polygons_exhibit(graft(base, q)).commands =~= base + spec_polygons_exhibit(
        q,
    ).commands);
}

proof fn lemma_morph_graft(base: Seq<DrawCommand>, q: PainterState, seconds: Fixed)
    ensures
        spec_morph_exhibit(graft(base, q), seconds) == graft(base, spec_morph_exhibit(q, seconds)),
{
    reveal(spec_morph_exhibit);
    assert(spec_morph_exhibit(graft(base, q), seconds).commands =~= base + spec_morph_exhibit(
        q, seconds,
    ).commands);
}

proof fn lemma_meter_graft(base: Seq<DrawCommand>, q: PainterState, seconds: Fixed)
    ensures
        spec_meter_exhibit(graft(base, q), seconds) == graft(base, spec_meter_exhibit(q, seconds)),
{
    reveal(spec_meter_exhibit);
    assert(spec_meter_exhibit(graft(base, q), seconds).commands =~= base + spec_meter_exhibit(
        q, seconds,
    ).commands);
}

proof fn lemma_bubble_graft(
    base: Seq<DrawCommand>,
    q: PainterState,
    seconds: Fixed,
    position: Vec3,
    scale: Fixed,
)
    ensures
        spec_draw_bubble(graft(base, q), seconds, position, scale) == graft(
            base,
            spec_draw_bubble(q, seconds, position, scale),
        ),
{
    reveal(spec_draw_bubble);
    assert(spec_draw_bubble(graft(base, q), seconds, position, scale).commands =~= base
        + spec_draw_bubble(q, seconds, position, scale).commands);
}

proof fn lemma_bubbles_graft(base: Seq<DrawCommand>, q: PainterState, seconds: Fixed)
    ensures
        spec_bubbles_exhibit(graft(base, q), seconds) == graft(
            base,
            spec_bubbles_exhibit(q, seconds),
        ),
{
    reveal(spec_bubbles_exhibit);
    let start = q.translate(Vec3::at(0, -600, 0));
    let home = start.transform;
    assert(graft(base, q).translate(Vec3::at(0, -600, 0)) == graft(base, start));
    let s1 = seconds;
    let s2 = seconds.plus(Fixed::from_millis(500));
    let s3 = seconds.plus(Fixed { raw: PI }.over(Fixed::from_int(3)));
    let s4 = seconds.plus(Fixed { raw: PI }.over(Fixed::from_int(2)));
    let s5 = seconds.plus(Fixed { raw: PI }.over(Fixed::from_millis(1200)));
    lemma_bubble_graft(base, start, s1, Vec3::at(1000, -600, 0), Fixed::from_millis(1100));
    let one = spec_draw_bubble(start, s1, Vec3::at(1000, -600, 0), Fixed::from_millis(1100));
    assert(graft(base, one).restore(home) == graft(base, one.restore(home)));
    lemma_bubble_graft(
        base,
        one.restore(home),
        s2,
        Vec3::at(0, -1000, 0),
        Fixed::from_millis(1700),
    );
    let two = spec_draw_bubble(
        one.restore(home),
        s2,
        Vec3::at(0, -1000, 0),
        Fixed::from_millis(1700),
    );
    assert(graft(base, two).restore(home) == graft(base, two.restore(home)));
    lemma_bubble_graft(
        base,
        two.restore(home),
        s3,
        Vec3::at(-1000, -1000, 0),
        Fixed::from_millis(1300),
    );
    let three = spec_draw_bubble(
        two.restore(home),
        s3,
        Vec3::at(-1000, -1000, 0),
        Fixed::from_millis(1300),
    );
    assert(graft(base, three).restore(home) == graft(base, three.restore(home)));
    lemma_bubble_graft(
        base,
        three.restore(home),
        s4,
        Vec3::at(-500, -1200, 0),
        Fixed::from_millis(1900),
    );
    let four = spec_draw_bubble(
        three.restore(home),
        s4,
        Vec3::at(-500, -1200, 0),
        Fixed::from_millis(1900),
    );
    assert(graft(base, four).restore(home) == graft(base, four.restore(home)));
    lemma_bubble_graft(
        base,
        four.restore(home),
        s5,
        Vec3::at(700, -1400, 0),
        Fixed::from_millis(1400),
    );
}

proof fn lemma_gon_graft(
    base: Seq<DrawCommand>,
    q: PainterState,
    origin: Vec3,
    sides: Fixed,
    radius: Fixed,
)
    ensures
        spec_draw_gon(graft(base, q), origin, sides, radius) == graft(
            base,
            spec_draw_gon(q, origin, sides, radius),
        ),
{
    reveal(spec_draw_gon);
    assert(spec_draw_gon(graft(base, q), origin, sides, radius).commands =~= base
        + spec_draw_gon(q, origin, sides, radius).commands);
}

proof fn lemma_position_graft(base: Seq<DrawCommand>, q: PainterState, pos: Vec3, right: Vec3)
    ensures
        spec_draw_position(graft(base, q), pos, right) == graft(
            base,
            spec_draw_position(q, pos, right),
        ),
{
    reveal(spec_draw_position);
    let home = q.transform;
    let tri_radius = spec_tri_radius();
    let normal = right.normalized().cross(Vec3::at(0, 0, 1000)).scaled(tri_radius);
    let six = Fixed::from_int(6);
    let three = Fixed::from_int(3);
    let hex = Fixed::from_millis(HEX_RADIUS);
    let a0 = q.translate(pos);
    assert(graft(base, q).translate(pos) == graft(base, a0));
    lemma_gon_graft(base, a0, home.translation, six, hex);
    let a1 = spec_draw_gon(a0, home.translation, six, hex);
    let step = right.scaled(Fixed::from_millis(500)).minus(normal);
    let b0 = a1.translate(step);
    assert(graft(base, a1).translate(step) == graft(base, b0));
    lemma_gon_graft(base, b0, home.translation, three, tri_radius);
    let b1 = spec_draw_gon(b0, home.translation, three, tri_radius);
    let c0 = b1.translate(normal.scaled(Fixed::from_int(2))).rotate_z(Fixed { raw: PI });
    assert(graft(base, b1).translate(normal.scaled(Fixed::from_int(2))).rotate_z(
        Fixed { raw: PI },
    ) == graft(base, c0));
    lemma_gon_graft(base, c0, home.translation, three, tri_radius);
    let c1 = spec_draw_gon(c0, home.translation, three, tri_radius);
    assert(graft(base, c1).restore(home) == graft(base, c1.restore(home)));
}

proof fn lemma_column_graft(
    base: Seq<DrawCommand>,
    q: PainterState,
    down: Vec3,
    right: Vec3,
    offset: Vec3,
    x: int,
    y: int,
)
    ensures
        spec_tiling_column(graft(base, q), down, right, offset, x, y) == graft(
            base,
            spec_tiling_column(q, down, right, offset, x, y),
        ),
    decreases REACH - y,
{
    if y < REACH {
        let pos = tile_position(down, right, offset, x, y);
        lemma_position_graft(base, q, pos, right);
        lemma_column_graft(base, spec_draw_position(q, pos, right), down, right, offset, x, y + 1);
    }
}

proof fn lemma_columns_graft(
    base: Seq<DrawCommand>,
    q: PainterState,
    down: Vec3,
    right: Vec3,
    offset: Vec3,
    x: int,
)
    ensures
        spec_tiling_columns(graft(base, q), down, right, offset, x) == graft(
            base,
            spec_tiling_columns(q, down, right, offset, x),
        ),
    decreases REACH - x,
{
    if x < REACH {
        lemma_column_graft(base, q, down, right, offset, x, -REACH as int);
        lemma_columns_graft(
            base,
            spec_tiling_column(q, down, right, offset, x, -REACH as int),
            down,
            right,
            offset,
            x + 1,
        );
    }
}

proof fn lemma_tiling_graft(base: Seq<DrawCommand>, q: PainterState, seconds: Fixed)
    ensures
        spec_tiling_exhibit(graft(base, q), seconds) == graft(
            base,
            spec_tiling_exhibit(q, seconds),
        ),
{
    reveal(spec_tiling_exhibit);
    let start = q.hollow(false).roundness(Fixed { raw: 0 });
    assert(graft(base, q).hollow(false).roundness(Fixed { raw: 0 }) == graft(base, start));
    lemma_columns_graft(
        base,
        start,
        crate::gallery::spec_down_step(),
        crate::gallery::spec_right_step(),
        crate::gallery::spec_drift(seconds),
        -REACH as int,
    );
}

/// The sketch appends behind whatever is there.
pub proof fn lemma_sketch_graft(base: Seq<DrawCommand>, q: PainterState)
    ensures
        crate::sketch::spec_draw_line(graft(base, q)) == graft(
            base,
            crate::sketch::spec_draw_line(q),
        ),
{
    crate::sketch::lemma_sketch_shapes(q);
    crate::sketch::lemma_sketch_shapes(graft(base, q));
    assert(crate::sketch::spec_draw_line(graft(base, q)).commands =~= base
        + crate::sketch::spec_draw_line(q).commands);
}

/// An exhibit appends behind whatever is there.
pub proof fn lemma_exhibit_graft(
    base: Seq<DrawCommand>,
    q: PainterState,
    exhibit: Exhibit,
    seconds: Fixed,
)
    ensures
        spec_run_exhibit(graft(base, q), exhibit, seconds) == graft(
            base,
            spec_run_exhibit(q, exhibit, seconds),
        ),
{
    reveal(spec_run_exhibit);
    match exhibit {
        Exhibit::Line => lemma_line_graft(base, q),
        Exhibit::Rect => lemma_rect_graft(base, q, seconds),
        Exhibit::Circles => lemma_circles_graft(base, q),
        Exhibit::Pulse => lemma_pulse_graft(base, q, seconds),
        Exhibit::Bubbles => lemma_bubbles_graft(base, q, seconds),
        Exhibit::Arcs => lemma_arcs_graft(base, q),
        Exhibit::Sweep => lemma_sweep_graft(base, q, seconds),
        Exhibit::Meter => lemma_meter_graft(base, q, seconds),
        Exhibit::Polygons => lemma_polygons_graft(base, q),
        Exhibit::Morph => lemma_morph_graft(base, q, seconds),
        Exhibit::Tiling => lemma_tiling_graft(base, q, seconds),
    }
}

/// A cell appends behind whatever is there.
pub proof fn lemma_cell_graft(
    base: Seq<DrawCommand>,
    q: PainterState,
    origin: Transform,
    seconds: Fixed,
    index: i32,
)
    ensures
        spec_cell(graft(base, q), origin, seconds, index) == graft(
            base,
            spec_cell(q, origin, seconds, index),
        ),
{
    reveal(spec_cell);
    let placed = q.restore(origin).translate(spec_cell_offset(index));
    assert(graft(base, q).restore(origin).translate(spec_cell_offset(index)) == graft(
        base,
        placed,
    ));
    match crate::gallery::spec_exhibit_at(index) {
        Some(exhibit) => lemma_exhibit_graft(base, placed, exhibit, seconds),
        None => {},
    }
}

/// A range of cells appends behind whatever is there.
pub proof fn lemma_cells_graft(
    base: Seq<DrawCommand>,
    q: PainterState,
    origin: Transform,
    seconds: Fixed,
    next: int,
    end: int,
)
    ensures
        spec_cells(graft(base, q), origin, seconds, next, end) == graft(
            base,
            spec_cells(q, origin, seconds, next, end),
        ),
    decreases end - next,
{
    if next < end {
        lemma_cell_graft(base, q, origin, seconds, next as i32);
        lemma_cells_graft(
            base,
            spec_cell(q, origin, seconds, next as i32),
            origin,
            seconds,
            next + 1,
            end,
        );
    }
}

/// The gallery appends behind whatever is there: what it draws, and the
/// state it leaves, do not depend on what the painter held before.
pub proof fn lemma_gallery_appends(p: PainterState, seconds: Fixed, start: i32, end: i32)
    ensures
        spec_gallery(p, seconds, start, end) == graft(
            p.commands,
            spec_gallery(blank(p), seconds, start, end),
        ),
        spec_gallery(p, seconds, start, end).commands == p.commands + spec_gallery(
            blank(p),
            seconds,
            start,
            end,
        ).commands,
{
    lemma_graft_blank(p);
    lemma_cells_graft(
        p.commands,
        blank(p),
        p.transform,
        seconds.modulo(Fixed { raw: PERIOD }),
        start as int,
        end as int,
    );
}

/// The commands of a range of cells are those of its first part followed
/// by those of the rest: the rest draws what a painter would draw that
/// held nothing and came with the style that the first part left. Taken
/// cell by cell, the draws of a range are those of its cells put one
/// after the other.
pub proof fn lemma_range_concatenates(
    p: PainterState,
    origin: Transform,
    seconds: Fixed,
    start: int,
    middle: int,
    end: int,
)
    requires
        start <= middle <= end,
    ensures
        spec_cells(p, origin, seconds, start, end).commands == spec_cells(
            p,
            origin,
            seconds,
            start,
            middle,
        ).commands + spec_cells(
            blank(spec_cells(p, origin, seconds, start, middle)),
            origin,
            seconds,
            middle,
            end,
        ).commands,
{
    let first = spec_cells(p, origin, seconds, start, middle);
    lemma_cells_in_order(p, origin, seconds, start, middle, end);
    lemma_graft_blank(first);
    lemma_cells_graft(first.commands, blank(first), origin, seconds, middle, end);
}

} // verus!
