//! What holds of the painter and of the gallery for every input.

use vstd::prelude::*;
use crate::color::{Color, Pastel};
use crate::continuity::{gap, lemma_trig_continuous};
use crate::fixed::{saturate, Fixed, UNIT};
use crate::gallery::{
    spec_bubbles_exhibit, spec_cell, spec_cell_offset, spec_cells, spec_draw_bubble, spec_drift,
    spec_gallery, spec_morph_exhibit, spec_morph_sides, spec_run_exhibit, spec_tiling_exhibit,
    PERIOD,
};
use crate::painter::PainterState;
use crate::shape::{spec_corner_count, spec_polygon, DrawCommand, Geometry, Style};
use crate::sketch::{sketch_pose, spec_intersection_point};
use crate::transform::Transform;
use crate::trig::{HALF_PI, PI, TAU};
use crate::vector::{Quat, Vec3};

verus! {

/// After a reset the transform is the identity and the style is the
/// initial one, whatever the painter went through before: two painters
/// that have drawn the same are equal once both are reset.
pub proof fn lemma_reset_forgets(p: PainterState, q: PainterState)
    requires
        p.commands == q.commands,
    ensures
        p.reset().transform == Transform::identity(),
        p.reset().style == Style::initial(),
        p.reset().transform.translation == Vec3::at(0, 0, 0),
        p.reset().transform.orientation == Quat::identity(),
        p.reset().transform.rotation@ == 0,
        p.reset().transform.scale == Vec3::at(1000, 1000, 1000),
        p.reset() == q.reset(),
{
}

/// Restoring a snapshot brings back the transform exactly as it was when
/// the snapshot was taken, whatever happened to the painter in between,
/// and touches nothing else.
pub proof fn lemma_snapshot_round_trip(before: PainterState, after: PainterState)
    ensures
        after.restore(before.transform).transform == before.transform,
        after.restore(before.transform).style == after.style,
        after.restore(before.transform).commands == after.commands,
{
}

/// Drawing a circle is drawing the arc from zero through one full turn:
/// both leave the painter in the same state, with the same command drawn.
pub proof fn lemma_circle_is_full_arc(p: PainterState, radius: Fixed)
    ensures
        p.circle(radius) == p.arc(radius, Fixed { raw: 0 }, Fixed { raw: TAU }),
{
}

/// A pastel is never darker than the colour it was made from, and the
/// pastel of a pastel is never darker than the pastel: each of the three
/// colour channels grows by a quarter, or stops at the largest value
/// there is.
pub proof fn lemma_pastel_lightens(c: Color)
    ensures
        c.spec_pastel().red@ == saturate(c.red@ + 250_000),
        c.spec_pastel().green@ == saturate(c.green@ + 250_000),
        c.spec_pastel().blue@ == saturate(c.blue@ + 250_000),
        c.spec_pastel().red@ >= c.red@,
        c.spec_pastel().green@ >= c.green@,
        c.spec_pastel().blue@ >= c.blue@,
        c.spec_pastel().spec_pastel().red@ >= c.spec_pastel().red@,
        c.spec_pastel().spec_pastel().green@ >= c.spec_pastel().green@,
        c.spec_pastel().spec_pastel().blue@ >= c.spec_pastel().blue@,
        c.red@ + 500_000 <= i64::MAX ==> c.spec_pastel().spec_pastel().red@
            == c.spec_pastel().red@ + 250_000,
        c.green@ + 500_000 <= i64::MAX ==> c.spec_pastel().spec_pastel().green@
            == c.spec_pastel().green@ + 250_000,
        c.blue@ + 500_000 <= i64::MAX ==> c.spec_pastel().spec_pastel().blue@
            == c.spec_pastel().blue@ + 250_000,
{
    let quarter = Color::white().scaled(Fixed::from_millis(crate::color::PASTEL_BLEND));
    assert(1_000_000 * 250_000 / 1_000_000 == 250_000int);
    assert(quarter.red@ == 250_000);
    assert(quarter.green@ == 250_000);
    assert(quarter.blue@ == 250_000);
}

/// The gallery looks the same one period later: at any time, before
/// zero as well as after, every cell draws exactly what it drew `PERIOD`
/// before.
pub proof fn lemma_gallery_periodic(p: PainterState, seconds: Fixed, start: i32, end: i32)
    requires
        seconds@ + PERIOD <= i64::MAX,
    ensures
        spec_gallery(p, seconds.plus(Fixed { raw: PERIOD }), start, end) == spec_gallery(
            p,
            seconds,
            start,
            end,
        ),
{
    let later = seconds.plus(Fixed { raw: PERIOD });
    assert(later@ == seconds@ + PERIOD);
    lemma_one_period_on(seconds@, PERIOD as int);
}

/// A time and the time one period later fall on the same place within
/// the period.
pub proof fn lemma_one_period_on(t: int, period: int)
    requires
        period > 0,
    ensures
        (t + period) % period == t % period,
{
    vstd::arithmetic::div_mod::lemma_mod_multiples_vanish(1, t, period);
    assert(period * 1 + t == t + period) by (nonlinear_arith);
}

/// A bubble starts over every half turn of the time.
pub proof fn lemma_bubble_periodic(p: PainterState, seconds: Fixed, position: Vec3, scale: Fixed)
    requires
        seconds@ + PI <= i64::MAX,
    ensures
        spec_draw_bubble(p, seconds.plus(Fixed { raw: PI }), position, scale) == spec_draw_bubble(
            p,
            seconds,
            position,
            scale,
        ),
{
    reveal(spec_draw_bubble);
    lemma_one_period_on(seconds@, PI as int);
}

/// The bubbles repeat after half a turn of the time: their own period,
/// a quarter of the gallery's.
pub proof fn lemma_bubbles_periodic(p: PainterState, seconds: Fixed)
    requires
        seconds@ + 2 * PI <= i64::MAX,
    ensures
        spec_bubbles_exhibit(p, seconds.plus(Fixed { raw: PI })) == spec_bubbles_exhibit(
            p,
            seconds,
        ),
{
    reveal(spec_bubbles_exhibit);
    let later = seconds.plus(Fixed { raw: PI });
    let half = Fixed::from_millis(500);
    let third = Fixed { raw: PI }.over(Fixed::from_int(3));
    let quarter = Fixed { raw: PI }.over(Fixed::from_int(2));
    let most = Fixed { raw: PI }.over(Fixed::from_millis(1200));
    assert(third@ == 1_047_198 && quarter@ == 1_570_797 && most@ == 2_617_995);
    assert(later.plus(half) == seconds.plus(half).plus(Fixed { raw: PI }));
    assert(later.plus(third) == seconds.plus(third).plus(Fixed { raw: PI }));
    assert(later.plus(quarter) == seconds.plus(quarter).plus(Fixed { raw: PI }));
    assert(later.plus(most) == seconds.plus(most).plus(Fixed { raw: PI }));
    let start = p.translate(Vec3::at(0, -600, 0));
    let home = start.transform;
    lemma_bubble_periodic(start, seconds, Vec3::at(1000, -600, 0), Fixed::from_millis(1100));
    let one = spec_draw_bubble(start, seconds, Vec3::at(1000, -600, 0), Fixed::from_millis(1100));
    lemma_bubble_periodic(
        one.restore(home),
        seconds.plus(half),
        Vec3::at(0, -1000, 0),
        Fixed::from_millis(1700),
    );
    let two = spec_draw_bubble(
        one.restore(home),
        seconds.plus(half),
        Vec3::at(0, -1000, 0),
        Fixed::from_millis(1700),
    );
    lemma_bubble_periodic(
        two.restore(home),
        seconds.plus(third),
        Vec3::at(-1000, -1000, 0),
        Fixed::from_millis(1300),
    );
    let three = spec_draw_bubble(
        two.restore(home),
        seconds.plus(third),
        Vec3::at(-1000, -1000, 0),
        Fixed::from_millis(1300),
    );
    lemma_bubble_periodic(
        three.restore(home),
        seconds.plus(quarter),
        Vec3::at(-500, -1200, 0),
        Fixed::from_millis(1900),
    );
    let four = spec_draw_bubble(
        three.restore(home),
        seconds.plus(quarter),
        Vec3::at(-500, -1200, 0),
        Fixed::from_millis(1900),
    );
    lemma_bubble_periodic(
        four.restore(home),
        seconds.plus(most),
        Vec3::at(700, -1400, 0),
        Fixed::from_millis(1400),
    );
}

/// The tiling repeats after half a turn of the time: its own period, a
/// quarter of the gallery's. By then it has drifted by one tile down and
/// three to the right.
pub proof fn lemma_tiling_periodic(p: PainterState, seconds: Fixed)
    requires
        seconds@ + PI <= i64::MAX,
    ensures
        spec_drift(seconds.plus(Fixed { raw: PI })) == spec_drift(seconds),
        spec_tiling_exhibit(p, seconds.plus(Fixed { raw: PI })) == spec_tiling_exhibit(
            p,
            seconds,
        ),
{
    reveal(spec_tiling_exhibit);
    let third = Fixed { raw: PI }.over(Fixed::from_int(3));
    assert(third@ == 1_047_198);
    lemma_one_period_on(seconds@, PI as int);
    vstd::arithmetic::div_mod::lemma_mod_multiples_vanish(3, seconds@, 1_047_198);
    assert(seconds.plus(Fixed { raw: PI })@ == 1_047_198 * 3 + seconds@);
}

/// Half a turn of the time later, the cells of the bubbles and of the
/// tiling look as before.
pub proof fn lemma_cell_half_turn(
    p: PainterState,
    origin: Transform,
    seconds: Fixed,
    index: i32,
)
    requires
        index == 12 || index == 14,
        seconds@ + 2 * PI <= i64::MAX,
    ensures
        spec_cell(p, origin, seconds.plus(Fixed { raw: PI }), index) == spec_cell(
            p,
            origin,
            seconds,
            index,
        ),
{
    reveal(spec_cell);
    reveal(spec_run_exhibit);
    let placed = p.restore(origin).translate(crate::gallery::spec_cell_offset(index));
    if index == 12 {
        lemma_bubbles_periodic(placed, seconds);
    } else {
        lemma_tiling_periodic(placed, seconds);
    }
}

/// Drawn alone, the cell of the bubbles and the cell of the tiling
/// repeat after half a turn of the time, at any time.
pub proof fn lemma_gallery_half_turn(p: PainterState, seconds: Fixed, index: i32)
    requires
        index == 12 || index == 14,
        seconds@ + PI <= i64::MAX,
    ensures
        spec_gallery(p, seconds.plus(Fixed { raw: PI }), index, (index + 1) as i32)
            == spec_gallery(p, seconds, index, (index + 1) as i32),
{
    reveal_with_fuel(spec_cells, 3);
    let m = PERIOD as int;
    let t0 = seconds.modulo(Fixed { raw: PERIOD });
    let t1 = seconds.plus(Fixed { raw: PI }).modulo(Fixed { raw: PERIOD });
    assert(t0@ == seconds@ % m);
    assert(t1@ == (seconds@ + PI) % m);
    vstd::arithmetic::div_mod::lemma_add_mod_noop_right(PI as int, seconds@, m);
    assert(t1@ == (t0@ + PI) % m);
    assert(0 <= t0@ < m);
    if t0@ + PI < m {
        assert(t1 == t0.plus(Fixed { raw: PI }));
        lemma_cell_half_turn(p, p.transform, t0, index);
    } else {
        assert(t1@ == t0@ + PI - m);
        let a = t1.plus(Fixed { raw: PI });
        let b = a.plus(Fixed { raw: PI });
        assert(b.plus(Fixed { raw: PI }) == t0);
        lemma_cell_half_turn(p, p.transform, t1, index);
        lemma_cell_half_turn(p, p.transform, a, index);
        lemma_cell_half_turn(p, p.transform, b, index);
    }
}

/// Sine and cosine repeat after one turn.
pub proof fn lemma_turn_periodic(angle: Fixed)
    requires
        angle@ + TAU <= i64::MAX,
    ensures
        angle.plus(Fixed { raw: TAU }).sin() == angle.sin(),
        angle.plus(Fixed { raw: TAU }).cos() == angle.cos(),
        angle.plus(Fixed { raw: TAU }).wrapped() == angle.wrapped(),
{
}

/// Within one turn, the angle that is as far before the full turn as `y`
/// is after its start has the opposite sine and the same cosine.
proof fn lemma_mirrored_turn(y: int)
    requires
        0 < y < TAU,
    ensures
        crate::trig::sin_turn(TAU - y) == -crate::trig::sin_turn(y),
        crate::trig::cos_turn(TAU - y) == crate::trig::cos_turn(y),
{
    assert(crate::trig::sin_series(0) == 0);
    assert(crate::trig::cos_series(0) == 1_000_000);
}

/// The sine of the opposite angle is the opposite sine, and its cosine is
/// the same, exactly.
pub proof fn lemma_opposite_angle(angle: Fixed)
    requires
        angle@ > i64::MIN,
    ensures
        angle.negated().sin()@ == -angle.sin()@,
        angle.negated().cos()@ == angle.cos()@,
{
    let m = TAU as int;
    let y = angle@ % m;
    let mirrored = (-angle@) % m;
    assert(angle.negated()@ == -angle@);
    assert(mirrored == if y == 0 {
        0
    } else {
        m - y
    }) by {
        vstd::arithmetic::div_mod::lemma_fundamental_div_mod(angle@, m);
        vstd::arithmetic::div_mod::lemma_fundamental_div_mod(-angle@, m);
        let q = angle@ / m;
        let r = (-angle@) / m;
        assert(m * (q + r) + y + mirrored == 0) by (nonlinear_arith)
            requires
                angle@ == m * q + y,
                -angle@ == m * r + mirrored,
        ;
        assert(q + r == 0 || q + r == -1) by (nonlinear_arith)
            requires
                m * (q + r) + y + mirrored == 0,
                0 <= y < m,
                0 <= mirrored < m,
                m > 0,
        ;
        assert(m * 0 == 0 && m * (-1) == -m) by (nonlinear_arith);
        if q + r == 0 {
            assert(m * (q + r) == 0);
        } else {
            assert(m * (q + r) == -m);
        }
    }
    crate::trig::lemma_turn_bounds(y);
    crate::trig::lemma_turn_bounds(mirrored);
    if y == 0 {
        assert(crate::trig::sin_series(0) == 0);
    } else {
        lemma_mirrored_turn(y);
    }
}

/// The cosine of an angle is the sine of the angle a quarter turn
/// further on, exactly.
pub proof fn lemma_quarter_turn(angle: Fixed)
    requires
        angle@ + HALF_PI <= i64::MAX,
    ensures
        angle.cos() == angle.plus(Fixed::of(HALF_PI as int)).sin(),
{
    let m = TAU as int;
    crate::continuity::lemma_cosine_is_shifted_sine(crate::trig::wrap(angle@));
    vstd::arithmetic::div_mod::lemma_add_mod_noop_right(HALF_PI as int, angle@, m);
    assert((crate::trig::wrap(angle@) + HALF_PI) % m == crate::trig::wrap(angle@ + HALF_PI));
}

/// At angle zero and at half a turn the sine is exactly zero and the
/// cosine exactly one and minus one; at a quarter turn they are exactly
/// one and zero.
pub proof fn lemma_right_angles()
    ensures
        Fixed::of(0).sin()@ == 0,
        Fixed::of(0).cos()@ == UNIT,
        Fixed::of(HALF_PI as int).sin()@ == UNIT,
        Fixed::of(HALF_PI as int).cos()@ == 0,
        Fixed::of(PI as int).sin()@ == 0,
        Fixed::of(PI as int).cos()@ == -UNIT,
{
    assert(crate::trig::sin_series(0) == 0);
    assert(crate::trig::cos_series(0) == 1_000_000);
}

/// The two circles of the sketch meet at the height of the root of
/// twelve, rounded down to the millionth.
pub proof fn lemma_intersection_point()
    ensures
        spec_intersection_point().x@ == 0,
        spec_intersection_point().y@ == 3_464_101,
        spec_intersection_point().z@ == 0,
{
    assert(4_000_000 * 4_000_000 / 1_000_000 == 16_000_000int);
    assert(2_000_000 * 2_000_000 / 1_000_000 == 4_000_000int);
    let square = Fixed::from_int(4).times(Fixed::from_int(4)).minus(
        Fixed::from_int(2).times(Fixed::from_int(2)),
    );
    assert(square@ == 12_000_000);
    assert(crate::roots::is_floor_sqrt(12_000_000_000_000, 3_464_101));
    crate::roots::lemma_floor_sqrt(12_000_000_000_000, 3_464_101);
}

/// Where the painter is neither turned nor scaled, the sketch brings it
/// back exactly to where it started: after the two dots, after the two
/// circles, and at the end.
pub proof fn lemma_sketch_returns(entry: Transform)
    requires
        entry.orientation == Quat::identity(),
        entry.rotation@ == 0,
        entry.scale == Vec3::at(1000, 1000, 1000),
        -1_000_000_000_000_000_000 <= entry.translation.x@ <= 1_000_000_000_000_000_000,
        -1_000_000_000_000_000_000 <= entry.translation.y@ <= 1_000_000_000_000_000_000,
        -1_000_000_000_000_000_000 <= entry.translation.z@ <= 1_000_000_000_000_000_000,
    ensures
        sketch_pose(entry, 3) == entry,
        sketch_pose(entry, 6) == entry,
        sketch_pose(entry, 8) == entry,
{
    reveal_with_fuel(sketch_pose, 9);
    lemma_intersection_point();
    let left = Vec3::at(-2000, 0, 0);
    let across = Vec3::at(4000, 0, 0);
    let top = spec_intersection_point();
    let down = top.scaled(Fixed::units(-1));
    assert(down.x@ == 0 && down.y@ == -3_464_101 && down.z@ == 0) by {
        assert(3_464_101 * -1_000_000 == -3_464_101_000_000int);
        assert(3_464_101_000_000int / 1_000_000 == 3_464_101);
        assert(0 * -1_000_000 == 0int);
    }
    let t1 = entry.translated(left);
    lemma_plain_translation(entry, left);
    let t2 = t1.translated(across);
    lemma_plain_translation(t1, across);
    let t3 = t2.translated(left);
    lemma_plain_translation(t2, left);
    assert(t3 == entry);
    let t7 = entry.translated(top);
    lemma_plain_translation(entry, top);
    lemma_plain_translation(t7, down);
    assert(t7.translated(down) == entry);
}

/// Zero times anything is zero.
pub proof fn lemma_zero_times(x: Fixed)
    ensures
        Fixed::of(0).times(x) == Fixed::of(0),
{
    assert(0 * x@ == 0);
    assert(crate::fixed::quot(0, 1_000_000) == 0);
}

/// The attitude that turns nothing leaves every vector exactly as it is.
pub proof fn lemma_identity_turns_nothing(v: Vec3)
    ensures
        Quat::identity().turned(v) == v,
{
    let zero = Fixed::of(0);
    let axis = Vec3 { x: zero, y: zero, z: zero };
    lemma_zero_times(v.x);
    lemma_zero_times(v.y);
    lemma_zero_times(v.z);
    lemma_zero_times(zero);
    lemma_zero_times(Fixed::from_int(1));
    lemma_zero_times(Fixed::from_int(2));
    assert(zero.minus(zero) == zero);
    assert(axis.cross(v) == axis);
    let twice = axis.cross(v).scaled(Fixed::from_int(2));
    assert(twice == axis);
    assert(twice.scaled(Fixed::from_int(1)) == axis);
    assert(axis.cross(twice) == axis);
    assert(v.plus(axis) == v);
}

/// A painter that is not turned and not scaled moves by exactly the step
/// it is given.
pub proof fn lemma_plain_translation(t: Transform, delta: Vec3)
    requires
        t.orientation == Quat::identity(),
        t.rotation@ == 0,
        t.scale == Vec3::at(1000, 1000, 1000),
    ensures
        t.translated(delta).translation == t.translation.plus(delta),
        t.translated(delta).orientation == t.orientation,
        t.translated(delta).rotation == t.rotation,
        t.translated(delta).scale == t.scale,
{
    reveal(Transform::spec_translated);
    lemma_right_angles();
    lemma_times_one(delta.x);
    lemma_times_one(delta.y);
    lemma_times_one(delta.z);
    lemma_times_zero(delta.x);
    lemma_times_zero(delta.y);
    let turned = delta.rotated_z(t.rotation);
    assert(turned == delta);
    lemma_identity_turns_nothing(delta);
}

/// One is neutral for the product.
pub proof fn lemma_times_one(x: Fixed)
    ensures
        x.times(Fixed::of(UNIT as int)) == x,
{
    assert(x@ * 1_000_000 / 1_000_000 == x@);
    assert((-(x@ * 1_000_000)) / 1_000_000 == -x@);
}

/// Zero absorbs the product.
pub proof fn lemma_times_zero(x: Fixed)
    ensures
        x.times(Fixed::of(0)) == Fixed::of(0),
{
    assert(x@ * 0 == 0);
}

/// The angle between neighbouring corners of a polygon changes little
/// when the side count changes little: between two side counts of three
/// or more it differs by no more than the side counts do, but for one
/// rounding step. So a polygon does not jump when its side count slides
/// across a whole number, and it gains or loses at most one corner while
/// the side count moves by less than one.
pub proof fn lemma_central_angle_continuous(fewer: Fixed, more: Fixed)
    requires
        3 * UNIT <= fewer@ <= more@,
    ensures
        0 <= Fixed::of(TAU as int).over(fewer)@ - Fixed::of(TAU as int).over(more)@ <= more@
            - fewer@ + 1,
        more@ - fewer@ < UNIT ==> 0 <= spec_corner_count(more) - spec_corner_count(fewer) <= 1,
{
    let a = fewer@;
    let b = more@;
    let n = TAU as int * UNIT as int;
    let qa = n / a;
    let qb = n / b;
    assert(n == 6_283_188_000_000);
    assert(qa * a <= n < (qa + 1) * a && qb * b <= n < (qb + 1) * b && qa >= 0 && qb >= 0)
        by (nonlinear_arith)
        requires
            a > 0,
            b > 0,
            n >= 0,
            qa == n / a,
            qb == n / b,
    ;
    assert(qb <= qa) by (nonlinear_arith)
        requires
            0 < a <= b,
            qa >= 0,
            qb >= 0,
            qb * b <= n,
            n < (qa + 1) * a,
    ;
    assert(qa <= 2_094_396) by (nonlinear_arith)
        requires
            a >= 3_000_000,
            qa * a <= n,
            n == 6_283_188_000_000,
            qa >= 0,
    ;
    assert(qa - qb <= b - a + 1) by (nonlinear_arith)
        requires
            3_000_000 <= a <= b,
            0 <= qb <= qa <= 2_094_396,
            qa * a <= n,
            n < (qb + 1) * b,
    ;
    assert(Fixed::of(TAU as int).over(fewer)@ == qa);
    assert(Fixed::of(TAU as int).over(more)@ == qb);
}

/// A corner of a polygon keeps close to its place when the side count
/// changes little: the angle at which corner `k` stands moves by no more
/// than `k` times the change of the side count, but for one rounding
/// step each.
pub proof fn lemma_vertex_angle_continuous(
    style: Style,
    radius: Fixed,
    fewer: Fixed,
    more: Fixed,
    k: i32,
)
    requires
        3 * UNIT <= fewer@ <= more@,
        0 <= k,
    ensures
        0 <= spec_polygon(style, fewer, radius).vertex_angle(k)@ - spec_polygon(
            style,
            more,
            radius,
        ).vertex_angle(k)@ <= k * (more@ - fewer@ + 1),
{
    lemma_central_angle_continuous(fewer, more);
    crate::shape::lemma_polygon_measures(style, fewer, Fixed::of(1));
    crate::shape::lemma_polygon_measures(style, more, Fixed::of(1));
    let wide = Fixed::of(TAU as int).over(fewer)@;
    let narrow = Fixed::of(TAU as int).over(more)@;
    assert(spec_polygon(style, fewer, radius).central_angle@ == wide);
    assert(spec_polygon(style, more, radius).central_angle@ == narrow);
    assert(0 <= narrow <= wide <= 2_094_396);
    let steps = k as int * 1_000_000;
    assert(wide * steps / 1_000_000 == wide * k && narrow * steps / 1_000_000 == narrow * k
        && 0 <= narrow * k <= wide * k <= 2_094_396 * k && wide * k - narrow * k == (wide
        - narrow) * k && (wide - narrow) * k <= (more@ - fewer@ + 1) * k) by (nonlinear_arith)
        requires
            steps == k * 1_000_000,
            0 <= k,
            0 <= narrow <= wide <= 2_094_396,
            wide - narrow <= more@ - fewer@ + 1,
    ;
    assert(0 <= 2_094_396 * k <= 0x7fff_ffff_ffff_ffff);
    assert((more@ - fewer@ + 1) * k == k * (more@ - fewer@ + 1)) by (nonlinear_arith);
}

/// A product with a share of one changes little where the share changes
/// little.
proof fn lemma_scaled_gap(r: Fixed, s1: Fixed, s2: Fixed, e: int)
    requires
        r@ >= 0,
        -UNIT <= s1@ <= UNIT,
        -UNIT <= s2@ <= UNIT,
        gap(s1@, s2@) <= e,
    ensures
        gap(r.times(s1)@, r.times(s2)@) <= r@ * e / (UNIT as int) + 2,
{
    let n1 = r@ * s1@;
    let n2 = r@ * s2@;
    let t = r@ * e;
    assert(-r@ * 1_000_000 <= n1 <= r@ * 1_000_000 && -r@ * 1_000_000 <= n2 <= r@ * 1_000_000
        && n1 - n2 <= t && n2 - n1 <= t) by (nonlinear_arith)
        requires
            r@ >= 0,
            -1_000_000 <= s1@ <= 1_000_000,
            -1_000_000 <= s2@ <= 1_000_000,
            s1@ - s2@ <= e,
            s2@ - s1@ <= e,
            n1 == r@ * s1@,
            n2 == r@ * s2@,
            t == r@ * e,
    ;
    let q1 = crate::fixed::quot(n1, 1_000_000);
    let q2 = crate::fixed::quot(n2, 1_000_000);
    assert(-r@ <= q1 <= r@ && -r@ <= q2 <= r@);
    assert(r.times(s1)@ == q1 && r.times(s2)@ == q2);
}

/// A corner of a polygon does not jump when the side count changes: with
/// the radius fixed, neither coordinate of corner `k` moves by more than
/// the radius times twice the change of its angle, but for a few rounding
/// steps. So the polygon changes smoothly while the side count slides
/// across a whole number, where it gains its next corner.
pub proof fn lemma_vertex_continuous(
    style: Style,
    radius: Fixed,
    fewer: Fixed,
    more: Fixed,
    k: i32,
)
    requires
        3 * UNIT <= fewer@ <= more@,
        0 <= k,
        radius@ >= 0,
    ensures
        gap(
            spec_polygon(style, fewer, radius).spec_vertex(k).x@,
            spec_polygon(style, more, radius).spec_vertex(k).x@,
        ) <= radius@ * (2 * (k * (more@ - fewer@ + 1)) + 16) / (UNIT as int) + 2,
        gap(
            spec_polygon(style, fewer, radius).spec_vertex(k).y@,
            spec_polygon(style, more, radius).spec_vertex(k).y@,
        ) <= radius@ * (2 * (k * (more@ - fewer@ + 1)) + 16) / (UNIT as int) + 2,
{
    let wide = spec_polygon(style, fewer, radius).vertex_angle(k);
    let narrow = spec_polygon(style, more, radius).vertex_angle(k);
    lemma_vertex_angle_continuous(style, radius, fewer, more, k);
    lemma_trig_continuous(wide, narrow);
    crate::trig::lemma_turn_bounds(crate::trig::wrap(wide@));
    crate::trig::lemma_turn_bounds(crate::trig::wrap(narrow@));
    let e = 2 * (k * (more@ - fewer@ + 1)) + 16;
    assert(gap(wide@, narrow@) <= k * (more@ - fewer@ + 1));
    lemma_scaled_gap(radius, wide.sin(), narrow.sin(), e);
    lemma_scaled_gap(radius, wide.cos(), narrow.cos(), e);
}

/// The style under which the morphing polygon is drawn, whatever style
/// the painter came with.
pub open spec fn morph_style(arriving: Style) -> Style {
    Style {
        color: Color::purple().spec_pastel(),
        thickness: Fixed::from_millis(500),
        hollow: true,
        roundness: Fixed::from_millis(500),
        ..arriving
    }
}

/// The one command that the cell of the morphing polygon adds.
pub open spec fn morph_command(arriving: Style, origin: Transform, seconds: Fixed) -> DrawCommand {
    DrawCommand {
        transform: origin.translated(spec_cell_offset(9)),
        color: Color::purple().spec_pastel(),
        thickness: Fixed::from_millis(500),
        hollow: true,
        geometry: Geometry::Polygon(
            spec_polygon(
                morph_style(arriving),
                spec_morph_sides(seconds),
                Fixed::from_millis(1500),
            ),
        ),
    }
}

/// The side count of the morphing polygon is three plus three times the
/// lifted sine: between three and nine.
pub proof fn lemma_morph_sides(seconds: Fixed)
    ensures
        spec_morph_sides(seconds)@ == 3 * UNIT + 3 * (seconds.sin()@ + UNIT),
        3 * UNIT <= spec_morph_sides(seconds)@ <= 9 * UNIT,
{
    crate::trig::lemma_turn_bounds(crate::trig::wrap(seconds@));
    let s = seconds.sin()@;
    assert(-1_000_000 <= s <= 1_000_000);
    let lifted = seconds.sin().plus(Fixed::from_int(1));
    assert(lifted@ == s + 1_000_000);
    let n = lifted@ * 3_000_000;
    assert(n == 3_000_000 * lifted@) by (nonlinear_arith)
        requires
            n == lifted@ * 3_000_000,
    ;
    assert(n / 1_000_000 == 3 * lifted@);
    assert(lifted.times(Fixed::from_int(3))@ == 3 * lifted@);
}

/// In whatever range it is drawn and whatever was drawn before it, the
/// cell of the morphing polygon adds exactly one command: a polygon of
/// radius one and a half at the pose of its cell, with the side count as
/// the time gives it, between three and nine and not rounded.
pub proof fn lemma_morph_cell(p: PainterState, origin: Transform, seconds: Fixed)
    ensures
        spec_cell(p, origin, seconds, 9).commands == p.commands.push(
            morph_command(p.style, origin, seconds),
        ),
        spec_morph_sides(seconds)@ == 3 * UNIT + 3 * (seconds.sin()@ + UNIT),
        3 * UNIT <= spec_morph_sides(seconds)@ <= 9 * UNIT,
{
    lemma_morph_sides(seconds);
    reveal(spec_cell);
    reveal(spec_run_exhibit);
    reveal(spec_morph_exhibit);
}

/// The side count of the morphing polygon changes little where the time
/// changes little.
pub proof fn lemma_morph_sides_continuous(earlier: Fixed, later: Fixed)
    ensures
        gap(spec_morph_sides(earlier)@, spec_morph_sides(later)@) <= 6 * gap(earlier@, later@)
            + 48,
{
    lemma_morph_cell(PainterState::fresh(), Transform::identity(), earlier);
    lemma_morph_cell(PainterState::fresh(), Transform::identity(), later);
    lemma_trig_continuous(earlier, later);
}

/// The morphing polygon does not jump: between any two times, no
/// coordinate of its corner `k` moves by more than a bound that shrinks
/// with the distance of the times down to a few rounding steps. This
/// holds as the side count passes a whole number, too.
pub proof fn lemma_morph_continuous(arriving: Style, earlier: Fixed, later: Fixed, k: i32)
    requires
        0 <= k,
    ensures
        gap(
            spec_polygon(
                morph_style(arriving),
                spec_morph_sides(earlier),
                Fixed::from_millis(1500),
            ).spec_vertex(k).x@,
            spec_polygon(
                morph_style(arriving),
                spec_morph_sides(later),
                Fixed::from_millis(1500),
            ).spec_vertex(k).x@,
        ) <= 1_500_000 * (2 * (k * (6 * gap(earlier@, later@) + 49)) + 16) / 1_000_000 + 2,
        gap(
            spec_polygon(
                morph_style(arriving),
                spec_morph_sides(earlier),
                Fixed::from_millis(1500),
            ).spec_vertex(k).y@,
            spec_polygon(
                morph_style(arriving),
                spec_morph_sides(later),
                Fixed::from_millis(1500),
            ).spec_vertex(k).y@,
        ) <= 1_500_000 * (2 * (k * (6 * gap(earlier@, later@) + 49)) + 16) / 1_000_000 + 2,
{
    let a = spec_morph_sides(earlier);
    let b = spec_morph_sides(later);
    let style = morph_style(arriving);
    let radius = Fixed::from_millis(1500);
    lemma_morph_cell(PainterState::fresh(), Transform::identity(), earlier);
    lemma_morph_cell(PainterState::fresh(), Transform::identity(), later);
    lemma_morph_sides_continuous(earlier, later);
    let d = gap(a@, b@);
    let g = gap(earlier@, later@);
    if a@ <= b@ {
        lemma_vertex_continuous(style, radius, a, b, k);
    } else {
        lemma_vertex_continuous(style, radius, b, a, k);
    }
    assert(k * (d + 1) <= k * (6 * g + 49)) by (nonlinear_arith)
        requires
            0 <= k,
            d <= 6 * g + 48,
    ;
}

/// A cell is drawn from the origin of the grid whatever pose the painter
/// was left in before: two painters that differ in their transform only
/// draw the same cell the same way.
pub proof fn lemma_cell_starts_at_the_origin(
    p: PainterState,
    q: PainterState,
    origin: Transform,
    seconds: Fixed,
    index: i32,
)
    requires
        p.style == q.style,
        p.commands == q.commands,
    ensures
        spec_cell(p, origin, seconds, index) == spec_cell(q, origin, seconds, index),
        spec_cell(p, origin, seconds, index) == spec_cell(
            p.restore(origin),
            origin,
            seconds,
            index,
        ),
{
    reveal(spec_cell);
}

/// A request that is degenerate leaves the painter as it was.
pub proof fn lemma_degenerate_draws_nothing(
    p: PainterState,
    radius: Fixed,
    sides: Fixed,
    angle: Fixed,
    other: Fixed,
    size: crate::vector::Vec2,
)
    ensures
        radius@ <= 0 ==> p.circle(radius) == p,
        radius@ <= 0 ==> p.arc(radius, angle, other) == p,
        radius@ <= 0 ==> p.ngon(sides, radius) == p,
        sides@ < 3 * UNIT ==> p.ngon(sides, radius) == p,
        p.arc(radius, angle, angle) == p,
        size.x@ <= 0 || size.y@ <= 0 ==> p.rect(size) == p,
{
}

/// An arc looks the same when both its angles are moved by one full
/// turn.
pub proof fn lemma_arc_turn_invariant(p: PainterState, radius: Fixed, from: Fixed, to: Fixed)
    requires
        from@ + TAU <= i64::MAX,
        to@ + TAU <= i64::MAX,
    ensures
        p.arc(radius, from.plus(Fixed::of(TAU as int)), to.plus(Fixed::of(TAU as int))) == p.arc(
            radius,
            from,
            to,
        ),
{
}

/// Turns add up: two turns in a row are the turn by the sum of their
/// angles, and a full turn changes nothing.
pub proof fn lemma_rotations_add(t: Transform, first: Fixed, second: Fixed)
    ensures
        t.rotated_z(first).rotated_z(second).rotation@ == (t.rotation@ + first@ + second@) % (
        TAU as int),
        t.rotated_z(first).rotated_z(second).translation == t.translation,
        t.rotated_z(first).rotated_z(second).orientation == t.orientation,
        t.rotated_z(first).rotated_z(second).scale == t.scale,
        0 <= t.rotation@ < TAU ==> t.rotated_z(Fixed::of(TAU as int)) == t,
{
    let m = TAU as int;
    let once = (t.rotation@ + first@) % m;
    assert(t.rotated_z(first).rotation@ == once);
    assert((once + second@) % m == (t.rotation@ + first@ + second@) % m) by {
        vstd::arithmetic::div_mod::lemma_add_mod_noop_right(second@, t.rotation@ + first@, m);
    }
    assert(t.rotated_z(first).rotated_z(second).rotation@ == (once + second@) % m);
}

/// The gallery draws its cells one after the other in rising order:
/// drawing a range in two parts gives what drawing it at once gives.
pub proof fn lemma_cells_in_order(
    p: PainterState,
    origin: Transform,
    seconds: Fixed,
    start: int,
    middle: int,
    end: int,
)
    requires
        start <= middle <= end,
    ensures
        spec_cells(p, origin, seconds, start, end) == spec_cells(
            spec_cells(p, origin, seconds, start, middle),
            origin,
            seconds,
            middle,
            end,
        ),
    decreases middle - start,
{
    if start < middle {
        lemma_cells_in_order(
            spec_cell(p, origin, seconds, start as i32),
            origin,
            seconds,
            start + 1,
            middle,
            end,
        );
    }
}

/// Over an empty range of cells the gallery draws nothing; it only
/// resets the painter.
pub proof fn lemma_empty_gallery(p: PainterState, seconds: Fixed, start: i32, end: i32)
    requires
        start >= end,
    ensures
        spec_gallery(p, seconds, start, end) == p.reset(),
{
}

} // verus!
