//! Sine and cosine of fixed-point angles.
//!
//! An angle is first wrapped into one turn, then folded into the first
//! quadrant, then into its lower half, where two short alternating series are
//! evaluated in Horner form with every quotient rounded down. The constants
//! are the millionths nearest to the true values that keep a half, a third
//! and a sixth of `PI` whole, so that the quadrant folds are exact:
//! the sine of no turn and of half a turn is exactly zero, and the cosine of
//! no turn exactly one.

use vstd::prelude::*;
use crate::fixed::{Fixed, UNIT};

verus! {

/// Half a turn, in millionths of a radian.
pub const PI: i64 = 3_141_594;

/// A quarter turn.
pub const HALF_PI: i64 = 1_570_797;

/// A full turn.
pub const TAU: i64 = 6_283_188;

/// Where the quadrant is split: below it the angle itself is fed to the
/// series, above it the complement.
pub const OCTANT: i64 = 785_398;

/// The angle `x` wrapped into `0 <= wrap(x) < TAU`.
pub open spec fn wrap(x: int) -> int {
    x % (TAU as int)
}

/// The square of `z`, in millionths.
pub open spec fn square(z: int) -> int {
    z * z / 1_000_000
}

/// Sine series `z - z^3/3! + z^5/5! - z^7/7!` for `0 <= z <= HALF_PI - OCTANT`.
pub open spec fn sin_series(z: int) -> int {
    let z2 = square(z);
    let a3 = 1_000_000 - z2 / 42;
    let a2 = 1_000_000 - z2 * a3 / 20_000_000;
    let a1 = 1_000_000 - z2 * a2 / 6_000_000;
    z * a1 / 1_000_000
}

/// Cosine series `1 - z^2/2! + z^4/4! - z^6/6! + z^8/8!` for
/// `0 <= z <= HALF_PI - OCTANT`.
pub open spec fn cos_series(z: int) -> int {
    let z2 = square(z);
    let b4 = 1_000_000 - z2 / 56;
    let b3 = 1_000_000 - z2 * b4 / 30_000_000;
    let b2 = 1_000_000 - z2 * b3 / 12_000_000;
    1_000_000 - z2 * b2 / 2_000_000
}

/// Sine of an angle in the first quadrant, `0 <= y <= HALF_PI`.
pub open spec fn sin_quadrant(y: int) -> int {
    if y <= OCTANT {
        sin_series(y)
    } else {
        cos_series(HALF_PI - y)
    }
}

/// Cosine of an angle in the first quadrant, `0 <= y <= HALF_PI`.
pub open spec fn cos_quadrant(y: int) -> int {
    if y <= OCTANT {
        cos_series(y)
    } else {
        sin_series(HALF_PI - y)
    }
}

/// Sine of an angle within one turn, `0 <= y < TAU`.
pub open spec fn sin_turn(y: int) -> int {
    if y <= HALF_PI {
        sin_quadrant(y)
    } else if y <= PI {
        sin_quadrant(PI - y)
    } else if y <= PI + HALF_PI {
        -sin_quadrant(y - PI)
    } else {
        -sin_quadrant(TAU - y)
    }
}

/// Cosine of an angle within one turn, `0 <= y < TAU`.
pub open spec fn cos_turn(y: int) -> int {
    if y <= HALF_PI {
        cos_quadrant(y)
    } else if y <= PI {
        -cos_quadrant(PI - y)
    } else if y <= PI + HALF_PI {
        -cos_quadrant(y - PI)
    } else {
        cos_quadrant(TAU - y)
    }
}

/// Both series stay between zero and one on the range they are used on.
pub proof fn lemma_series_bounds(z: int)
    requires
        0 <= z <= HALF_PI - OCTANT,
    ensures
        0 <= square(z) <= 616_852,
        0 <= sin_series(z) <= z,
        0 <= cos_series(z) <= 1_000_000,
{
    let z2 = square(z);
    assert(0 <= z * z <= 785_399 * 785_399) by (nonlinear_arith)
        requires
            0 <= z <= 785_399,
    ;
    let a3 = 1_000_000 - z2 / 42;
    lemma_scaled_fraction(z2, a3);
    let a2 = 1_000_000 - z2 * a3 / 20_000_000;
    lemma_scaled_fraction(z2, a2);
    let a1 = 1_000_000 - z2 * a2 / 6_000_000;
    assert(0 <= z * a1 <= z * 1_000_000) by (nonlinear_arith)
        requires
            0 <= z,
            0 <= a1 <= 1_000_000,
    ;
    let b4 = 1_000_000 - z2 / 56;
    lemma_scaled_fraction(z2, b4);
    let b3 = 1_000_000 - z2 * b4 / 30_000_000;
    lemma_scaled_fraction(z2, b3);
    let b2 = 1_000_000 - z2 * b3 / 12_000_000;
    lemma_scaled_fraction(z2, b2);
}

/// A product of a small square and a factor of at most one is at most the
/// square, in millionths.
proof fn lemma_scaled_fraction(z2: int, f: int)
    requires
        0 <= z2 <= 616_852,
        0 <= f <= 1_000_000,
    ensures
        0 <= z2 * f <= 616_852_000_000,
{
    assert(0 <= z2 * f <= 616_852 * 1_000_000) by (nonlinear_arith)
        requires
            0 <= z2 <= 616_852,
            0 <= f <= 1_000_000,
    ;
}

/// Sine and cosine never leave the range from minus one to one.
pub proof fn lemma_turn_bounds(y: int)
    requires
        0 <= y < TAU,
    ensures
        -1_000_000 <= sin_turn(y) <= 1_000_000,
        -1_000_000 <= cos_turn(y) <= 1_000_000,
{
    let q = if y <= HALF_PI {
        y
    } else if y <= PI {
        PI - y
    } else if y <= PI + HALF_PI {
        y - PI
    } else {
        TAU - y
    };
    let z = if q <= OCTANT {
        q
    } else {
        HALF_PI - q
    };
    lemma_series_bounds(z);
}

fn square_of(z: i64) -> (z2: i64)
    requires
        0 <= z <= HALF_PI - OCTANT,
    ensures
        z2 == square(z as int),
        0 <= z2 <= 616_852,
{
    proof {
        lemma_series_bounds(z as int);
        assert(0 <= z * z <= 785_399 * 785_399) by (nonlinear_arith)
            requires
                0 <= z <= 785_399,
        ;
    }
    z * z / 1_000_000
}

fn sin_series_of(z: i64) -> (s: i64)
    requires
        0 <= z <= HALF_PI - OCTANT,
    ensures
        s == sin_series(z as int),
        0 <= s <= 1_000_000,
{
    let z2: i64 = square_of(z);
    let a3: i64 = 1_000_000 - z2 / 42;
    proof {
        lemma_scaled_fraction(z2 as int, a3 as int);
    }
    let a2: i64 = 1_000_000 - z2 * a3 / 20_000_000;
    proof {
        lemma_scaled_fraction(z2 as int, a2 as int);
    }
    let a1: i64 = 1_000_000 - z2 * a2 / 6_000_000;
    proof {
        assert(0 <= z * a1 <= z * 1_000_000) by (nonlinear_arith)
            requires
                0 <= z,
                0 <= a1 <= 1_000_000,
        ;
    }
    z * a1 / 1_000_000
}

fn cos_series_of(z: i64) -> (c: i64)
    requires
        0 <= z <= HALF_PI - OCTANT,
    ensures
        c == cos_series(z as int),
        0 <= c <= 1_000_000,
{
    let z2: i64 = square_of(z);
    let b4: i64 = 1_000_000 - z2 / 56;
    proof {
        lemma_scaled_fraction(z2 as int, b4 as int);
    }
    let b3: i64 = 1_000_000 - z2 * b4 / 30_000_000;
    proof {
        lemma_scaled_fraction(z2 as int, b3 as int);
    }
    let b2: i64 = 1_000_000 - z2 * b3 / 12_000_000;
    proof {
        lemma_scaled_fraction(z2 as int, b2 as int);
    }
    1_000_000 - z2 * b2 / 2_000_000
}

fn sin_quadrant_of(y: i64) -> (s: i64)
    requires
        0 <= y <= HALF_PI,
    ensures
        s == sin_quadrant(y as int),
        0 <= s <= 1_000_000,
{
    if y <= OCTANT {
        sin_series_of(y)
    } else {
        cos_series_of(HALF_PI - y)
    }
}

fn cos_quadrant_of(y: i64) -> (c: i64)
    requires
        0 <= y <= HALF_PI,
    ensures
        c == cos_quadrant(y as int),
        0 <= c <= 1_000_000,
{
    if y <= OCTANT {
        cos_series_of(y)
    } else {
        sin_series_of(HALF_PI - y)
    }
}

impl Fixed {
    pub open spec fn spec_wrapped(self) -> Fixed {
        Fixed { raw: wrap(self@) as i64 }
    }

    /// The same angle within one turn: `0 <= result < TAU`.
    #[verifier::when_used_as_spec(spec_wrapped)]
    pub fn wrapped(self) -> (r: Fixed)
        ensures
            r == self.spec_wrapped(),
            0 <= r@ < TAU,
    {
        let r: i64 = self.raw % TAU;
        if r < 0 {
            Fixed { raw: r + TAU }
        } else {
            Fixed { raw: r }
        }
    }

    pub open spec fn spec_sin(self) -> Fixed {
        Fixed { raw: sin_turn(wrap(self@)) as i64 }
    }

    /// Sine of an angle in radians.
    #[verifier::when_used_as_spec(spec_sin)]
    pub fn sin(self) -> (r: Fixed)
        ensures
            r == self.spec_sin(),
            -UNIT <= r@ <= UNIT,
    {
        let y: i64 = self.wrapped().raw;
        if y <= HALF_PI {
            Fixed { raw: sin_quadrant_of(y) }
        } else if y <= PI {
            Fixed { raw: sin_quadrant_of(PI - y) }
        } else if y <= PI + HALF_PI {
            Fixed { raw: -sin_quadrant_of(y - PI) }
        } else {
            Fixed { raw: -sin_quadrant_of(TAU - y) }
        }
    }

    pub open spec fn spec_cos(self) -> Fixed {
        Fixed { raw: cos_turn(wrap(self@)) as i64 }
    }

    /// Cosine of an angle in radians.
    #[verifier::when_used_as_spec(spec_cos)]
    pub fn cos(self) -> (r: Fixed)
        ensures
            r == self.spec_cos(),
            -UNIT <= r@ <= UNIT,
    {
        let y: i64 = self.wrapped().raw;
        if y <= HALF_PI {
            Fixed { raw: cos_quadrant_of(y) }
        } else if y <= PI {
            Fixed { raw: -cos_quadrant_of(PI - y) }
        } else if y <= PI + HALF_PI {
            Fixed { raw: -cos_quadrant_of(y - PI) }
        } else {
            Fixed { raw: cos_quadrant_of(TAU - y) }
        }
    }
}

} // verus!
