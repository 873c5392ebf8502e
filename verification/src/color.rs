//! Colours with four unclamped fixed-point channels.
//!
//! Arithmetic on colours may leave the unit range; bringing a colour back
//! into it is left to whoever finally consumes it.

use vstd::prelude::*;
use crate::fixed::Fixed;

verus! {

/// A colour as red, green, blue and alpha.
#[derive(Clone, Copy, Debug, PartialEq, Eq, Structural)]
pub struct Color {
    pub red: Fixed,
    pub green: Fixed,
    pub blue: Fixed,
    pub alpha: Fixed,
}

/// How far `pastel` moves each colour channel, in thousandths.
pub const PASTEL_BLEND: i32 = 250;

impl Color {
    pub open spec fn spec_rgb(red: i32, green: i32, blue: i32) -> Color {
        Color {
            red: Fixed::from_millis(red),
            green: Fixed::from_millis(green),
            blue: Fixed::from_millis(blue),
            alpha: Fixed::from_millis(1000),
        }
    }

    /// An opaque colour from channels given in thousandths.
    #[verifier::when_used_as_spec(spec_rgb)]
    pub fn rgb(red: i32, green: i32, blue: i32) -> (c: Color)
        ensures
            c == Color::spec_rgb(red, green, blue),
    {
        Color {
            red: Fixed::from_millis(red),
            green: Fixed::from_millis(green),
            blue: Fixed::from_millis(blue),
            alpha: Fixed::from_millis(1000),
        }
    }

    pub open spec fn spec_white() -> Color {
        Color::rgb(1000, 1000, 1000)
    }

    #[verifier::when_used_as_spec(spec_white)]
    pub fn white() -> (c: Color)
        ensures
            c == Color::spec_white(),
    {
        Color::rgb(1000, 1000, 1000)
    }

    pub open spec fn spec_yellow() -> Color {
        Color::rgb(1000, 1000, 0)
    }

    #[verifier::when_used_as_spec(spec_yellow)]
    pub fn yellow() -> (c: Color)
        ensures
            c == Color::spec_yellow(),
    {
        Color::rgb(1000, 1000, 0)
    }

    pub open spec fn spec_midnight_blue() -> Color {
        Color::rgb(100, 100, 440)
    }

    #[verifier::when_used_as_spec(spec_midnight_blue)]
    pub fn midnight_blue() -> (c: Color)
        ensures
            c == Color::spec_midnight_blue(),
    {
        Color::rgb(100, 100, 440)
    }

    pub open spec fn spec_sea_green() -> Color {
        Color::rgb(180, 550, 340)
    }

    #[verifier::when_used_as_spec(spec_sea_green)]
    pub fn sea_green() -> (c: Color)
        ensures
            c == Color::spec_sea_green(),
    {
        Color::rgb(180, 550, 340)
    }

    pub open spec fn spec_orange() -> Color {
        Color::rgb(1000, 650, 0)
    }

    #[verifier::when_used_as_spec(spec_orange)]
    pub fn orange() -> (c: Color)
        ensures
            c == Color::spec_orange(),
    {
        Color::rgb(1000, 650, 0)
    }

    pub open spec fn spec_crimson() -> Color {
        Color::rgb(860, 80, 240)
    }

    #[verifier::when_used_as_spec(spec_crimson)]
    pub fn crimson() -> (c: Color)
        ensures
            c == Color::spec_crimson(),
    {
        Color::rgb(860, 80, 240)
    }

    pub open spec fn spec_purple() -> Color {
        Color::rgb(500, 0, 500)
    }

    #[verifier::when_used_as_spec(spec_purple)]
    pub fn purple() -> (c: Color)
        ensures
            c == Color::spec_purple(),
    {
        Color::rgb(500, 0, 500)
    }

    pub open spec fn spec_plus(self, rhs: Color) -> Color {
        Color {
            red: self.red.plus(rhs.red),
            green: self.green.plus(rhs.green),
            blue: self.blue.plus(rhs.blue),
            alpha: self.alpha.plus(rhs.alpha),
        }
    }

    /// Channel-wise sum, alpha included.
    #[verifier::when_used_as_spec(spec_plus)]
    pub fn plus(self, rhs: Color) -> (c: Color)
        ensures
            c == self.spec_plus(rhs),
    {
        Color {
            red: self.red.plus(rhs.red),
            green: self.green.plus(rhs.green),
            blue: self.blue.plus(rhs.blue),
            alpha: self.alpha.plus(rhs.alpha),
        }
    }

    pub open spec fn spec_scaled(self, factor: Fixed) -> Color {
        Color {
            red: self.red.times(factor),
            green: self.green.times(factor),
            blue: self.blue.times(factor),
            alpha: self.alpha,
        }
    }

    /// The three colour channels multiplied by `factor`; alpha is kept.
    #[verifier::when_used_as_spec(spec_scaled)]
    pub fn scaled(self, factor: Fixed) -> (c: Color)
        ensures
            c == self.spec_scaled(factor),
    {
        Color {
            red: self.red.times(factor),
            green: self.green.times(factor),
            blue: self.blue.times(factor),
            alpha: self.alpha,
        }
    }

    pub open spec fn spec_with_alpha(self, alpha: Fixed) -> Color {
        Color { red: self.red, green: self.green, blue: self.blue, alpha }
    }

    /// The same colour with another alpha.
    #[verifier::when_used_as_spec(spec_with_alpha)]
    pub fn with_alpha(self, alpha: Fixed) -> (c: Color)
        ensures
            c == self.spec_with_alpha(alpha),
    {
        Color { red: self.red, green: self.green, blue: self.blue, alpha }
    }
}

/// Lightening of a colour by a fixed share of white.
pub trait Pastel {
    /// What `pastel` returns.
    spec fn spec_pastel(&self) -> Color;

    /// The colour plus a quarter of white.
    fn pastel(&self) -> (c: Color)
        ensures
            c == self.spec_pastel(),
    ;
}

impl Pastel for Color {
    open spec fn spec_pastel(&self) -> Color {
        self.plus(Color::white().scaled(Fixed::from_millis(PASTEL_BLEND)))
    }

    fn pastel(&self) -> (c: Color) {
        self.plus(Color::white().scaled(Fixed::from_millis(PASTEL_BLEND)))
    }
}

} // verus!
