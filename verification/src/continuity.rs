//! Sine and cosine change little where the angle changes little.
//!
//! The bounds are not sharp: they allow the functions twice the slope
//! that the true sine has, and a few rounding steps on top. What they
//! rule out is a jump.

use vstd::prelude::*;
use crate::fixed::Fixed;
use crate::trig::{
    cos_quadrant, cos_series, cos_turn, lemma_series_bounds, lemma_turn_bounds, sin_quadrant,
    sin_series, sin_turn, square, wrap, HALF_PI, OCTANT, PI, TAU,
};

verus! {

/// How much a product changes when both of its factors change a little:
/// the first factor grows by at most `dx` and stays below `bound`, the
/// second is a share of one that moves by at most `da`.
proof fn lemma_product_change(xz: int, xw: int, az: int, aw: int, dx: int, da: int, bound: int)
    requires
        0 <= xz <= xw <= bound,
        xw - xz <= dx,
        0 <= az <= 1_000_000,
        0 <= aw <= 1_000_000,
        -da <= aw - az <= da,
    ensures
        -(bound * da) <= xw * aw - xz * az <= dx * 1_000_000 + bound * da,
{
    assert(xw * aw - xz * az == (xw - xz) * aw + xz * (aw - az)) by (nonlinear_arith);
    assert(0 <= (xw - xz) * aw <= dx * 1_000_000) by (nonlinear_arith)
        requires
            0 <= xw - xz <= dx,
            0 <= aw <= 1_000_000,
    ;
    assert(-(bound * da) <= xz * (aw - az) <= bound * da) by (nonlinear_arith)
        requires
            0 <= xz <= bound,
            -da <= aw - az <= da,
    ;
}

/// The square of an angle grows with the angle, by at most twice what the
/// angle grows by and one step.
proof fn lemma_square_change(z: int, w: int)
    requires
        0 <= z <= w <= HALF_PI - OCTANT,
    ensures
        0 <= square(w) - square(z) <= 2 * (w - z) + 1,
        0 <= square(z) <= square(w) <= 616_852,
{
    lemma_series_bounds(z);
    lemma_series_bounds(w);
    assert(0 <= w * w - z * z <= (w - z) * 1_570_798) by (nonlinear_arith)
        requires
            0 <= z <= w <= 785_399,
    ;
}

/// The sine series changes by at most twice what the angle changes by,
/// and three steps.
pub proof fn lemma_sin_series_continuous(z: int, w: int)
    requires
        0 <= z <= w <= HALF_PI - OCTANT,
    ensures
        -(2 * (w - z) + 3) <= sin_series(w) - sin_series(z) <= 2 * (w - z) + 3,
{
    lemma_square_change(z, w);
    let d = w - z;
    let d2 = 2 * d + 1;
    let xz = square(z);
    let xw = square(w);
    let a3z = 1_000_000 - xz / 42;
    let a3w = 1_000_000 - xw / 42;
    let da3 = d2 / 42 + 1;
    assert(-da3 <= a3w - a3z <= da3);
    lemma_product_change(xz, xw, a3z, a3w, d2, da3, 616_852);
    let a2z = 1_000_000 - xz * a3z / 20_000_000;
    let a2w = 1_000_000 - xw * a3w / 20_000_000;
    assert(0 <= xz * a3z <= 616_852_000_000 && 0 <= xw * a3w <= 616_852_000_000)
        by (nonlinear_arith)
        requires
            0 <= xz <= 616_852,
            0 <= xw <= 616_852,
            0 <= a3z <= 1_000_000,
            0 <= a3w <= 1_000_000,
    ;
    let da2 = d2 + 2;
    assert(-da2 <= a2w - a2z <= da2);
    lemma_product_change(xz, xw, a2z, a2w, d2, da2, 616_852);
    let a1z = 1_000_000 - xz * a2z / 6_000_000;
    let a1w = 1_000_000 - xw * a2w / 6_000_000;
    assert(0 <= xz * a2z <= 616_852_000_000 && 0 <= xw * a2w <= 616_852_000_000)
        by (nonlinear_arith)
        requires
            0 <= xz <= 616_852,
            0 <= xw <= 616_852,
            0 <= a2z <= 1_000_000,
            0 <= a2w <= 1_000_000,
    ;
    let da1 = d2 / 3 + 2;
    assert(-da1 <= a1w - a1z <= da1);
    lemma_product_change(z, w, a1z, a1w, d, da1, 785_399);
    assert(sin_series(z) == z * a1z / 1_000_000);
    assert(sin_series(w) == w * a1w / 1_000_000);
}

/// The cosine series changes by at most twice what the angle changes
/// by, and three steps.
pub proof fn lemma_cos_series_continuous(z: int, w: int)
    requires
        0 <= z <= w <= HALF_PI - OCTANT,
    ensures
        -(2 * (w - z) + 3) <= cos_series(w) - cos_series(z) <= 2 * (w - z) + 3,
{
    lemma_square_change(z, w);
    let d = w - z;
    let d2 = 2 * d + 1;
    let xz = square(z);
    let xw = square(w);
    let b4z = 1_000_000 - xz / 56;
    let b4w = 1_000_000 - xw / 56;
    let db4 = d2 / 56 + 1;
    assert(-db4 <= b4w - b4z <= db4);
    lemma_product_change(xz, xw, b4z, b4w, d2, db4, 616_852);
    let b3z = 1_000_000 - xz * b4z / 30_000_000;
    let b3w = 1_000_000 - xw * b4w / 30_000_000;
    assert(0 <= xz * b4z <= 616_852_000_000 && 0 <= xw * b4w <= 616_852_000_000)
        by (nonlinear_arith)
        requires
            0 <= xz <= 616_852,
            0 <= xw <= 616_852,
            0 <= b4z <= 1_000_000,
            0 <= b4w <= 1_000_000,
    ;
    let db3 = d2 + 2;
    assert(-db3 <= b3w - b3z <= db3);
    lemma_product_change(xz, xw, b3z, b3w, d2, db3, 616_852);
    let b2z = 1_000_000 - xz * b3z / 12_000_000;
    let b2w = 1_000_000 - xw * b3w / 12_000_000;
    assert(0 <= xz * b3z <= 616_852_000_000 && 0 <= xw * b3w <= 616_852_000_000)
        by (nonlinear_arith)
        requires
            0 <= xz <= 616_852,
            0 <= xw <= 616_852,
            0 <= b3z <= 1_000_000,
            0 <= b3w <= 1_000_000,
    ;
    let db2 = d2 + 2;
    assert(-db2 <= b2w - b2z <= db2);
    lemma_product_change(xz, xw, b2z, b2w, d2, db2, 616_852);
    assert(0 <= xz * b2z <= 616_852_000_000 && 0 <= xw * b2w <= 616_852_000_000)
        by (nonlinear_arith)
        requires
            0 <= xz <= 616_852,
            0 <= xw <= 616_852,
            0 <= b2z <= 1_000_000,
            0 <= b2w <= 1_000_000,
    ;
    assert(cos_series(z) == 1_000_000 - xz * b2z / 2_000_000);
    assert(cos_series(w) == 1_000_000 - xw * b2w / 2_000_000);
}

/// The distance between two numbers.
pub open spec fn gap(a: int, b: int) -> int {
    if a >= b {
        a - b
    } else {
        b - a
    }
}

/// Within the first quadrant sine and cosine change by at most twice what
/// the angle changes by, and eight steps.
pub proof fn lemma_quadrant_continuous(y1: int, y2: int)
    requires
        0 <= y1 <= y2 <= HALF_PI,
    ensures
        gap(sin_quadrant(y2), sin_quadrant(y1)) <= 2 * (y2 - y1) + 8,
        gap(cos_quadrant(y2), cos_quadrant(y1)) <= 2 * (y2 - y1) + 8,
{
    if y2 <= OCTANT {
        lemma_sin_series_continuous(y1, y2);
        lemma_cos_series_continuous(y1, y2);
    } else if y1 > OCTANT {
        lemma_sin_series_continuous(HALF_PI - y2, HALF_PI - y1);
        lemma_cos_series_continuous(HALF_PI - y2, HALF_PI - y1);
    } else {
        let seam: int = 785_398;
        lemma_sin_series_continuous(y1, seam);
        lemma_cos_series_continuous(y1, seam);
        lemma_sin_series_continuous(HALF_PI - y2, seam);
        lemma_cos_series_continuous(HALF_PI - y2, seam);
        lemma_series_at_the_seam();
    }
}

/// Where the quadrant is split the two series agree to within two steps.
proof fn lemma_series_at_the_seam()
    ensures
        gap(sin_series(785_398), cos_series(785_398)) <= 2,
{
    assert(square(785_398) == 616_850);
    assert(sin_series(785_398) == 707_106);
    assert(cos_series(785_398) == 707_107);
}

/// Close to angle zero the sine is small.
proof fn lemma_quadrant_near_zero(y: int)
    requires
        0 <= y <= HALF_PI,
    ensures
        0 <= sin_quadrant(y) <= 2 * y + 8,
{
    lemma_quadrant_continuous(0, y);
    assert(sin_series(0) == 0);
    let fold = if y <= OCTANT {
        y
    } else {
        HALF_PI - y
    };
    lemma_series_bounds(fold);
}

/// Within one turn the sine changes by at most twice what the angle
/// changes by, and sixteen steps.
pub proof fn lemma_turn_continuous(y1: int, y2: int)
    requires
        0 <= y1 <= y2 < TAU,
    ensures
        gap(sin_turn(y2), sin_turn(y1)) <= 2 * (y2 - y1) + 16,
{
    lemma_turn_bounds(y1);
    lemma_turn_bounds(y2);
    if y2 - y1 >= 1_000_000 {
    } else if y2 <= HALF_PI {
        lemma_quadrant_continuous(y1, y2);
    } else if y1 <= HALF_PI {
        let f1 = y1;
        let f2 = PI - y2;
        if f1 <= f2 {
            lemma_quadrant_continuous(f1, f2);
        } else {
            lemma_quadrant_continuous(f2, f1);
        }
    } else if y2 <= PI {
        lemma_quadrant_continuous(PI - y2, PI - y1);
    } else if y1 <= PI {
        lemma_quadrant_near_zero(PI - y1);
        lemma_quadrant_near_zero(y2 - PI);
    } else if y2 <= PI + HALF_PI {
        lemma_quadrant_continuous(y1 - PI, y2 - PI);
    } else if y1 <= PI + HALF_PI {
        let f1 = y1 - PI;
        let f2 = TAU - y2;
        if f1 <= f2 {
            lemma_quadrant_continuous(f1, f2);
        } else {
            lemma_quadrant_continuous(f2, f1);
        }
    } else {
        lemma_quadrant_continuous(TAU - y2, TAU - y1);
    }
}

/// The cosine is the sine a quarter turn further on, exactly.
pub proof fn lemma_cosine_is_shifted_sine(y: int)
    requires
        0 <= y < TAU,
    ensures
        cos_turn(y) == sin_turn((y + HALF_PI) % (TAU as int)),
{
    assert(sin_series(0) == 0);
    assert(cos_series(0) == 1_000_000);
}

/// The sine of any two angles differs by at most twice what the angles
/// differ by, and sixteen steps.
pub proof fn lemma_sine_continuous(a: int, b: int)
    requires
        a <= b,
    ensures
        gap(sin_turn(wrap(b)), sin_turn(wrap(a))) <= 2 * (b - a) + 16,
{
    let wa = wrap(a);
    let wb = wrap(b);
    lemma_turn_bounds(wa);
    lemma_turn_bounds(wb);
    if b - a >= 1_000_000 {
    } else {
        assert(wb - wa == b - a || wb - wa == b - a - TAU) by {
            lemma_wrap_step(a, b);
        }
        if wb >= wa {
            lemma_turn_continuous(wa, wb);
        } else {
            lemma_quadrant_near_zero(wb);
            lemma_quadrant_near_zero(TAU - wa);
        }
    }
}

/// Two angles less than a turn apart are, once wrapped, either as far
/// apart as before or one turn closer.
proof fn lemma_wrap_step(a: int, b: int)
    requires
        a <= b < a + TAU,
    ensures
        wrap(b) - wrap(a) == b - a || wrap(b) - wrap(a) == b - a - TAU,
        0 <= wrap(a) < TAU,
        0 <= wrap(b) < TAU,
{
    let m = TAU as int;
    vstd::arithmetic::div_mod::lemma_fundamental_div_mod(a, m);
    vstd::arithmetic::div_mod::lemma_fundamental_div_mod(b, m);
    let qa = a / m;
    let qb = b / m;
    assert(0 <= a % m < m && 0 <= b % m < m);
    assert(qb == qa || qb == qa + 1) by (nonlinear_arith)
        requires
            a == m * qa + a % m,
            b == m * qb + b % m,
            0 <= a % m < m,
            0 <= b % m < m,
            a <= b < a + m,
            m > 0,
    ;
    assert(m * (qa + 1) == m * qa + m) by (nonlinear_arith);
}

/// The cosine of any two angles differs by at most twice what the
/// angles differ by, and sixteen steps.
pub proof fn lemma_cosine_continuous(a: int, b: int)
    requires
        a <= b,
    ensures
        gap(cos_turn(wrap(b)), cos_turn(wrap(a))) <= 2 * (b - a) + 16,
{
    let m = TAU as int;
    lemma_cosine_is_shifted_sine(wrap(a));
    lemma_cosine_is_shifted_sine(wrap(b));
    vstd::arithmetic::div_mod::lemma_add_mod_noop_right(HALF_PI as int, a, m);
    vstd::arithmetic::div_mod::lemma_add_mod_noop_right(HALF_PI as int, b, m);
    assert((wrap(a) + HALF_PI) % m == wrap(a + HALF_PI));
    assert((wrap(b) + HALF_PI) % m == wrap(b + HALF_PI));
    lemma_sine_continuous(a + HALF_PI, b + HALF_PI);
}

/// Sine and cosine of fixed-point angles are continuous: neither changes
/// by more than twice what the angle changes by, and sixteen millionths.
pub proof fn lemma_trig_continuous(a: Fixed, b: Fixed)
    ensures
        gap(a.sin()@, b.sin()@) <= 2 * gap(a@, b@) + 16,
        gap(a.cos()@, b.cos()@) <= 2 * gap(a@, b@) + 16,
{
    lemma_turn_bounds(wrap(a@));
    lemma_turn_bounds(wrap(b@));
    if a@ <= b@ {
        lemma_sine_continuous(a@, b@);
        lemma_cosine_continuous(a@, b@);
    } else {
        lemma_sine_continuous(b@, a@);
        lemma_cosine_continuous(b@, a@);
    }
}

} // verus!
