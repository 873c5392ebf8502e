//! Saturating decimal fixed-point numbers.
//!
//! Every scalar the painter works with (lengths, angles in radians, colour
//! channels, seconds) is a `Fixed`: a signed count of millionths. All
//! operations are total. A result that does not fit is pinned to the nearest
//! representable value, and quotients round toward zero.

use vstd::prelude::*;

verus! {

/// Raw steps per unit: one step is a millionth.
pub const UNIT: i64 = 1_000_000;

/// A number with six decimal places, stored as a count of millionths.
#[derive(Clone, Copy, Debug, PartialEq, Eq, Structural)]
pub struct Fixed {
    pub raw: i64,
}

impl View for Fixed {
    type V = int;

    /// The count of millionths as a mathematical integer.
    open spec fn view(&self) -> int {
        self.raw as int
    }
}

/// `x` pinned into the range of the raw representation.
pub open spec fn saturate(x: int) -> int {
    if x < i64::MIN {
        i64::MIN as int
    } else if x > i64::MAX {
        i64::MAX as int
    } else {
        x
    }
}

/// Quotient of `a` by `b` rounded toward zero, for `b != 0`.
pub open spec fn quot(a: int, b: int) -> int {
    if b > 0 {
        if a >= 0 {
            a / b
        } else {
            -((-a) / b)
        }
    } else {
        if a >= 0 {
            -(a / (-b))
        } else {
            (-a) / (-b)
        }
    }
}

/// Remainder that goes with `quot`, for `b != 0`: it has the sign of `a`
/// and is smaller in magnitude than `b`.
pub open spec fn rem(a: int, b: int) -> int {
    let m = if b > 0 {
        b
    } else {
        -b
    };
    if a >= 0 {
        a % m
    } else {
        -((-a) % m)
    }
}

impl Fixed {
    /// The number whose count of millionths is `raw`, saturated.
    pub open spec fn of(raw: int) -> Fixed {
        Fixed { raw: saturate(raw) as i64 }
    }

    /// The whole number `n`, for `n` that fits.
    pub open spec fn units(n: int) -> Fixed {
        Fixed { raw: (n * UNIT as int) as i64 }
    }

    /// The number `n / 1000`, for `n` that fits.
    pub open spec fn millis(n: int) -> Fixed {
        Fixed { raw: (n * 1000) as i64 }
    }

    pub open spec fn spec_from_int(units: i32) -> Fixed {
        Fixed::units(units as int)
    }

    /// The whole number `units`.
    #[verifier::when_used_as_spec(spec_from_int)]
    pub fn from_int(units: i32) -> (r: Fixed)
        ensures
            r == Fixed::spec_from_int(units),
            r@ == units as int * UNIT as int,
    {
        let wide: i64 = units as i64;
        Fixed { raw: wide * UNIT }
    }

    pub open spec fn spec_from_millis(millis: i32) -> Fixed {
        Fixed::millis(millis as int)
    }

    /// The number `millis / 1000`, which is how decimal constants with up to
    /// three places are written.
    #[verifier::when_used_as_spec(spec_from_millis)]
    pub fn from_millis(millis: i32) -> (r: Fixed)
        ensures
            r == Fixed::spec_from_millis(millis),
            r@ == millis as int * 1000,
    {
        let wide: i64 = millis as i64;
        Fixed { raw: wide * 1000 }
    }

    /// Brings a wide intermediate result back into range.
    fn narrow(wide: i128) -> (r: Fixed)
        ensures
            r == Fixed::of(wide as int),
    {
        if wide > i64::MAX as i128 {
            Fixed { raw: i64::MAX }
        } else if wide < i64::MIN as i128 {
            Fixed { raw: i64::MIN }
        } else {
            Fixed { raw: wide as i64 }
        }
    }

    pub open spec fn spec_plus(self, rhs: Fixed) -> Fixed {
        Fixed::of(self@ + rhs@)
    }

    /// Saturating sum.
    #[verifier::when_used_as_spec(spec_plus)]
    pub fn plus(self, rhs: Fixed) -> (r: Fixed)
        ensures
            r == self.spec_plus(rhs),
    {
        Fixed::narrow(self.raw as i128 + rhs.raw as i128)
    }

    pub open spec fn spec_minus(self, rhs: Fixed) -> Fixed {
        Fixed::of(self@ - rhs@)
    }

    /// Saturating difference.
    #[verifier::when_used_as_spec(spec_minus)]
    pub fn minus(self, rhs: Fixed) -> (r: Fixed)
        ensures
            r == self.spec_minus(rhs),
    {
        Fixed::narrow(self.raw as i128 - rhs.raw as i128)
    }

    pub open spec fn spec_negated(self) -> Fixed {
        Fixed::of(-self@)
    }

    /// Saturating negation.
    #[verifier::when_used_as_spec(spec_negated)]
    pub fn negated(self) -> (r: Fixed)
        ensures
            r == self.spec_negated(),
    {
        Fixed::narrow(-(self.raw as i128))
    }

    pub open spec fn spec_times(self, rhs: Fixed) -> Fixed {
        Fixed::of(quot(self@ * rhs@, UNIT as int))
    }

    /// Saturating product, rounded toward zero.
    #[verifier::when_used_as_spec(spec_times)]
    pub fn times(self, rhs: Fixed) -> (r: Fixed)
        ensures
            r == self.spec_times(rhs),
    {
        let a: i128 = self.raw as i128;
        let b: i128 = rhs.raw as i128;
        proof {
            lemma_product_fits(a as int, b as int);
        }
        let wide: i128 = a * b;
        Fixed::narrow(wide / (UNIT as i128))
    }

    pub open spec fn spec_over(self, rhs: Fixed) -> Fixed {
        if rhs@ == 0 {
            if self@ > 0 {
                Fixed { raw: i64::MAX }
            } else if self@ < 0 {
                Fixed { raw: i64::MIN }
            } else {
                Fixed { raw: 0 }
            }
        } else {
            Fixed::of(quot(self@ * UNIT as int, rhs@))
        }
    }

    /// Saturating quotient, rounded toward zero. Dividing by zero gives the
    /// extreme value with the sign of the dividend, and zero for zero.
    #[verifier::when_used_as_spec(spec_over)]
    pub fn over(self, rhs: Fixed) -> (r: Fixed)
        ensures
            r == self.spec_over(rhs),
    {
        if rhs.raw == 0 {
            if self.raw > 0 {
                Fixed { raw: i64::MAX }
            } else if self.raw < 0 {
                Fixed { raw: i64::MIN }
            } else {
                Fixed { raw: 0 }
            }
        } else {
            let wide: i128 = self.raw as i128 * 1_000_000;
            let divisor: i128 = rhs.raw as i128;
            if divisor > 0 {
                Fixed::narrow(wide / divisor)
            } else {
                Fixed::narrow(-(wide / (-divisor)))
            }
        }
    }

    pub open spec fn spec_modulo(self, rhs: Fixed) -> Fixed {
        if rhs@ == 0 {
            Fixed { raw: 0 }
        } else if rhs@ > 0 {
            Fixed { raw: (self@ % rhs@) as i64 }
        } else {
            Fixed { raw: (self@ % (-rhs@)) as i64 }
        }
    }

    /// Where `self` falls within a period of length `rhs`: the remainder
    /// of the division rounded down, which is never negative and less than
    /// the magnitude of `rhs`. The remainder by zero is zero.
    #[verifier::when_used_as_spec(spec_modulo)]
    pub fn modulo(self, rhs: Fixed) -> (r: Fixed)
        ensures
            r == self.spec_modulo(rhs),
            rhs@ != 0 ==> 0 <= r@,
            rhs@ > 0 ==> r@ < rhs@,
            rhs@ < 0 ==> r@ < -rhs@,
    {
        if rhs.raw == 0 {
            Fixed { raw: 0 }
        } else {
            let a: i128 = self.raw as i128;
            let m: i128 = if rhs.raw > 0 {
                rhs.raw as i128
            } else {
                -(rhs.raw as i128)
            };
            let r: i128 = a % m;
            let lifted: i128 = if r < 0 {
                r + m
            } else {
                r
            };
            proof {
                lemma_floored_remainder(a as int, m as int, lifted as int);
            }
            Fixed { raw: lifted as i64 }
        }
    }

    pub open spec fn spec_at_most(self, rhs: Fixed) -> bool {
        self@ <= rhs@
    }

    /// `self <= rhs`.
    #[verifier::when_used_as_spec(spec_at_most)]
    pub fn at_most(self, rhs: Fixed) -> (b: bool)
        ensures
            b == self.spec_at_most(rhs),
    {
        self.raw <= rhs.raw
    }

    pub open spec fn spec_below(self, rhs: Fixed) -> bool {
        self@ < rhs@
    }

    /// `self < rhs`.
    #[verifier::when_used_as_spec(spec_below)]
    pub fn below(self, rhs: Fixed) -> (b: bool)
        ensures
            b == self.spec_below(rhs),
    {
        self.raw < rhs.raw
    }

    pub open spec fn spec_larger(self, rhs: Fixed) -> Fixed {
        if self@ >= rhs@ {
            self
        } else {
            rhs
        }
    }

    /// The larger of the two.
    #[verifier::when_used_as_spec(spec_larger)]
    pub fn larger(self, rhs: Fixed) -> (r: Fixed)
        ensures
            r == self.spec_larger(rhs),
    {
        if self.raw >= rhs.raw {
            self
        } else {
            rhs
        }
    }

    pub open spec fn spec_smaller(self, rhs: Fixed) -> Fixed {
        if self@ <= rhs@ {
            self
        } else {
            rhs
        }
    }

    /// The smaller of the two.
    #[verifier::when_used_as_spec(spec_smaller)]
    pub fn smaller(self, rhs: Fixed) -> (r: Fixed)
        ensures
            r == self.spec_smaller(rhs),
    {
        if self.raw <= rhs.raw {
            self
        } else {
            rhs
        }
    }
}

/// The remainder of the division rounded toward zero, lifted by the
/// divisor where it is negative, is the remainder of the division rounded
/// down.
proof fn lemma_floored_remainder(a: int, m: int, lifted: int)
    requires
        m > 0,
        lifted == if rem(a, m) < 0 {
            rem(a, m) + m
        } else {
            rem(a, m)
        },
    ensures
        lifted == a % m,
        0 <= lifted < m,
{
    if a < 0 {
        let p = -a;
        vstd::arithmetic::div_mod::lemma_fundamental_div_mod(p, m);
        vstd::arithmetic::div_mod::lemma_fundamental_div_mod(a, m);
        let q = p / m;
        let r = p % m;
        let k = a / m;
        let t = a % m;
        assert(0 <= r < m && 0 <= t < m);
        assert(m * (q + k) + r + t == 0) by (nonlinear_arith)
            requires
                p == m * q + r,
                a == m * k + t,
                p == -a,
        ;
        assert(q + k == 0 || q + k == -1) by (nonlinear_arith)
            requires
                m * (q + k) + r + t == 0,
                0 <= r < m,
                0 <= t < m,
                m > 0,
        ;
        if q + k == 0 {
            assert(m * (q + k) == 0);
        } else {
            assert(m * (q + k) == -m) by (nonlinear_arith)
                requires
                    q + k == -1,
            ;
        }
    }
}

/// The product of two raw values fits the wide intermediate type.
proof fn lemma_product_fits(a: int, b: int)
    requires
        i64::MIN <= a <= i64::MAX,
        i64::MIN <= b <= i64::MAX,
    ensures
        -0x4000_0000_0000_0000_0000_0000_0000_0000 <= a * b
            <= 0x4000_0000_0000_0000_0000_0000_0000_0000,
{
    assert(-0x4000_0000_0000_0000_0000_0000_0000_0000 <= a * b
        <= 0x4000_0000_0000_0000_0000_0000_0000_0000) by (nonlinear_arith)
        requires
            -0x8000_0000_0000_0000 <= a <= 0x8000_0000_0000_0000,
            -0x8000_0000_0000_0000 <= b <= 0x8000_0000_0000_0000,
    ;
}

} // verus!
