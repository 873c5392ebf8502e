//! Square roots and fifth roots of fixed-point numbers.
//!
//! Both are the exact integer roots of the scaled argument, rounded down,
//! found by bisection. The fractional powers that the animations use are
//! all multiples of a fifth, so the fifth root is the only one they need.

use vstd::prelude::*;
use crate::fixed::{Fixed, UNIT};

verus! {

/// `r` is the square root of `n`, rounded down.
pub open spec fn is_floor_sqrt(n: int, r: int) -> bool {
    0 <= r && r * r <= n < (r + 1) * (r + 1)
}

/// The square root of `n >= 0`, rounded down.
pub open spec fn floor_sqrt(n: int) -> int {
    choose|r: int| is_floor_sqrt(n, r)
}

/// The fifth power.
pub open spec fn pow5(r: int) -> int {
    r * r * r * r * r
}

/// `r` is the fifth root of `n`, rounded down.
pub open spec fn is_floor_root5(n: int, r: int) -> bool {
    0 <= r && pow5(r) <= n < pow5(r + 1)
}

/// The fifth root of `n >= 0`, rounded down.
pub open spec fn floor_root5(n: int) -> int {
    choose|r: int| is_floor_root5(n, r)
}

/// Arguments of `root5` above this many millionths are taken as this many.
pub const ROOT5_CAP: i64 = 10_000_000_000_000;

/// Only one number is the rounded-down square root.
pub proof fn lemma_floor_sqrt(n: int, r: int)
    requires
        is_floor_sqrt(n, r),
    ensures
        floor_sqrt(n) == r,
{
    let c = floor_sqrt(n);
    assert(is_floor_sqrt(n, c));
    if c < r {
        assert((c + 1) * (c + 1) <= r * r) by (nonlinear_arith)
            requires
                0 <= c + 1 <= r,
        ;
    }
    if r < c {
        assert((r + 1) * (r + 1) <= c * c) by (nonlinear_arith)
            requires
                0 <= r + 1 <= c,
        ;
    }
}

/// The fifth power grows with its argument.
pub proof fn lemma_pow5_monotonic(a: int, b: int)
    requires
        0 <= a <= b,
    ensures
        0 <= pow5(a) <= pow5(b),
{
    let a2 = a * a;
    let b2 = b * b;
    assert(0 <= a2 <= b2) by (nonlinear_arith)
        requires
            0 <= a <= b,
            a2 == a * a,
            b2 == b * b,
    ;
    let a3 = a2 * a;
    let b3 = b2 * b;
    assert(0 <= a3 <= b3) by (nonlinear_arith)
        requires
            0 <= a <= b,
            0 <= a2 <= b2,
            a3 == a2 * a,
            b3 == b2 * b,
    ;
    let a4 = a3 * a;
    let b4 = b3 * b;
    assert(0 <= a4 <= b4) by (nonlinear_arith)
        requires
            0 <= a <= b,
            0 <= a3 <= b3,
            a4 == a3 * a,
            b4 == b3 * b,
    ;
    assert(0 <= a4 * a <= b4 * b) by (nonlinear_arith)
        requires
            0 <= a <= b,
            0 <= a4 <= b4,
    ;
}

/// Only one number is the rounded-down fifth root.
pub proof fn lemma_floor_root5(n: int, r: int)
    requires
        is_floor_root5(n, r),
    ensures
        floor_root5(n) == r,
{
    let c = floor_root5(n);
    assert(is_floor_root5(n, c));
    if c < r {
        lemma_pow5_monotonic(c + 1, r);
    }
    if r < c {
        lemma_pow5_monotonic(r + 1, c);
    }
}

/// Rounded-down square root of `n` by bisection.
fn floor_sqrt_of(n: i128) -> (r: i128)
    requires
        0 <= n < 0x1000_0000_0000_0000_0000_00,
    ensures
        r == floor_sqrt(n as int),
        is_floor_sqrt(n as int, r as int),
        0 <= r < 0x400_0000_0000,
{
    let mut lo: i128 = 0;
    let mut hi: i128 = 0x400_0000_0000;
    while hi - lo > 1
        invariant
            0 <= lo < hi <= 0x400_0000_0000,
            lo * lo <= n < hi * hi,
        decreases hi - lo,
    {
        let mid: i128 = lo + (hi - lo) / 2;
        assert(0 <= mid * mid < 0x1000_0000_0000_0000_0000_00) by (nonlinear_arith)
            requires
                0 <= mid < 0x400_0000_0000,
        ;
        if mid * mid <= n {
            lo = mid;
        } else {
            hi = mid;
        }
    }
    proof {
        lemma_floor_sqrt(n as int, lo as int);
    }
    lo
}

/// The fifth power of a number below `2^25`.
fn pow5_of(r: i128) -> (p: i128)
    requires
        0 <= r <= 0x200_0000,
    ensures
        p == pow5(r as int),
{
    assert(0 <= r * r <= 0x4_0000_0000_0000) by (nonlinear_arith)
        requires
            0 <= r <= 0x200_0000,
    ;
    let r2: i128 = r * r;
    assert(0 <= r2 * r <= 0x8_0000_0000_0000_0000_00) by (nonlinear_arith)
        requires
            0 <= r <= 0x200_0000,
            0 <= r2 <= 0x4_0000_0000_0000,
    ;
    let r3: i128 = r2 * r;
    assert(0 <= r3 * r <= 0x10_0000_0000_0000_0000_0000_0000) by (nonlinear_arith)
        requires
            0 <= r <= 0x200_0000,
            0 <= r3 <= 0x8_0000_0000_0000_0000_00,
    ;
    let r4: i128 = r3 * r;
    assert(0 <= r4 * r <= 0x2000_0000_0000_0000_0000_0000_0000_0000) by (nonlinear_arith)
        requires
            0 <= r <= 0x200_0000,
            0 <= r4 <= 0x10_0000_0000_0000_0000_0000_0000,
    ;
    r4 * r
}

/// Rounded-down fifth root of `n` by bisection.
fn floor_root5_of(n: i128) -> (r: i128)
    requires
        0 <= n <= 10_000_000_000_000_000_000_000_000_000_000_000_000,
    ensures
        r == floor_root5(n as int),
        is_floor_root5(n as int, r as int),
        0 <= r < 0x200_0000,
{
    let mut lo: i128 = 0;
    let mut hi: i128 = 0x200_0000;
    assert(pow5(0) == 0 && pow5(0x200_0000) == 0x2000_0000_0000_0000_0000_0000_0000_0000);
    while hi - lo > 1
        invariant
            0 <= lo < hi <= 0x200_0000,
            pow5(lo as int) <= n < pow5(hi as int),
        decreases hi - lo,
    {
        let mid: i128 = lo + (hi - lo) / 2;
        if pow5_of(mid) <= n {
            lo = mid;
        } else {
            hi = mid;
        }
    }
    proof {
        lemma_floor_root5(n as int, lo as int);
    }
    lo
}

impl Fixed {
    pub open spec fn spec_sqrt(self) -> Fixed {
        if self@ <= 0 {
            Fixed { raw: 0 }
        } else {
            Fixed { raw: floor_sqrt(self@ * UNIT as int) as i64 }
        }
    }

    /// Square root, rounded down to a millionth. The root of a negative
    /// number is taken to be zero.
    #[verifier::when_used_as_spec(spec_sqrt)]
    pub fn sqrt(self) -> (r: Fixed)
        ensures
            r == self.spec_sqrt(),
            self@ > 0 ==> is_floor_sqrt(self@ * UNIT as int, r@),
    {
        if self.raw <= 0 {
            Fixed { raw: 0 }
        } else {
            let n: i128 = self.raw as i128 * 1_000_000;
            let r: i128 = floor_sqrt_of(n);
            Fixed { raw: r as i64 }
        }
    }

    pub open spec fn spec_root5(self) -> Fixed {
        if self@ <= 0 {
            Fixed { raw: 0 }
        } else {
            let x = if self@ <= ROOT5_CAP {
                self@
            } else {
                ROOT5_CAP as int
            };
            Fixed { raw: floor_root5(x * 1_000_000_000_000_000_000_000_000) as i64 }
        }
    }

    /// Fifth root, rounded down to a millionth. The root of a negative number
    /// is taken to be zero, and arguments above `ROOT5_CAP` count as
    /// `ROOT5_CAP`.
    #[verifier::when_used_as_spec(spec_root5)]
    pub fn root5(self) -> (r: Fixed)
        ensures
            r == self.spec_root5(),
    {
        if self.raw <= 0 {
            Fixed { raw: 0 }
        } else {
            let x: i128 = if self.raw <= ROOT5_CAP {
                self.raw as i128
            } else {
                ROOT5_CAP as i128
            };
            let n: i128 = x * 1_000_000_000_000_000_000_000_000;
            let r: i128 = floor_root5_of(n);
            Fixed { raw: r as i64 }
        }
    }
}

} // verus!
