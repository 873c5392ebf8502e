//! Small fixed-point vectors.

use vstd::prelude::*;
use crate::fixed::Fixed;

verus! {

/// A size or a point in the plane.
#[derive(Clone, Copy, Debug, PartialEq, Eq, Structural)]
pub struct Vec2 {
    pub x: Fixed,
    pub y: Fixed,
}

/// A point or a direction in space.
#[derive(Clone, Copy, Debug, PartialEq, Eq, Structural)]
pub struct Vec3 {
    pub x: Fixed,
    pub y: Fixed,
    pub z: Fixed,
}

/// Four scalars, one for each corner of a rectangle.
#[derive(Clone, Copy, Debug, PartialEq, Eq, Structural)]
pub struct Vec4 {
    pub x: Fixed,
    pub y: Fixed,
    pub z: Fixed,
    pub w: Fixed,
}

/// An attitude in space, as a quaternion: the vector part `x`, `y`, `z`
/// and the scalar part `w`.
#[derive(Clone, Copy, Debug, PartialEq, Eq, Structural)]
pub struct Quat {
    pub x: Fixed,
    pub y: Fixed,
    pub z: Fixed,
    pub w: Fixed,
}

impl Quat {
    pub open spec fn spec_identity() -> Quat {
        Quat {
            x: Fixed { raw: 0 },
            y: Fixed { raw: 0 },
            z: Fixed { raw: 0 },
            w: Fixed::from_int(1),
        }
    }

    /// The attitude that turns nothing.
    #[verifier::when_used_as_spec(spec_identity)]
    pub fn identity() -> (q: Quat)
        ensures
            q == Quat::spec_identity(),
    {
        Quat {
            x: Fixed { raw: 0 },
            y: Fixed { raw: 0 },
            z: Fixed { raw: 0 },
            w: Fixed::from_int(1),
        }
    }

    pub open spec fn spec_turned(self, v: Vec3) -> Vec3 {
        let axis = Vec3 { x: self.x, y: self.y, z: self.z };
        let twice = axis.cross(v).scaled(Fixed::from_int(2));
        v.plus(twice.scaled(self.w)).plus(axis.cross(twice))
    }

    /// The vector `v` turned by this attitude: with `q` for the vector
    /// part and `t` for twice the cross product of `q` and `v`, it is
    /// `v + w * t + q x t`.
    #[verifier::when_used_as_spec(spec_turned)]
    pub fn turned(self, v: Vec3) -> (r: Vec3)
        ensures
            r == self.spec_turned(v),
    {
        let axis = Vec3 { x: self.x, y: self.y, z: self.z };
        let twice = axis.cross(v).scaled(Fixed::from_int(2));
        v.plus(twice.scaled(self.w)).plus(axis.cross(twice))
    }
}

impl Vec2 {
    pub open spec fn spec_splat(v: Fixed) -> Vec2 {
        Vec2 { x: v, y: v }
    }

    /// Both components equal to `v`.
    #[verifier::when_used_as_spec(spec_splat)]
    pub fn splat(v: Fixed) -> (r: Vec2)
        ensures
            r == Vec2::spec_splat(v),
    {
        Vec2 { x: v, y: v }
    }
}

impl Vec4 {
    pub open spec fn spec_splat(v: Fixed) -> Vec4 {
        Vec4 { x: v, y: v, z: v, w: v }
    }

    /// All four components equal to `v`.
    #[verifier::when_used_as_spec(spec_splat)]
    pub fn splat(v: Fixed) -> (r: Vec4)
        ensures
            r == Vec4::spec_splat(v),
    {
        Vec4 { x: v, y: v, z: v, w: v }
    }
}

impl Vec3 {
    /// The vector with the given components in thousandths.
    pub open spec fn at(x: int, y: int, z: int) -> Vec3 {
        Vec3 { x: Fixed::millis(x), y: Fixed::millis(y), z: Fixed::millis(z) }
    }

    pub open spec fn spec_new(x: i32, y: i32, z: i32) -> Vec3 {
        Vec3::at(x as int, y as int, z as int)
    }

    /// The vector with the given components in thousandths.
    #[verifier::when_used_as_spec(spec_new)]
    pub fn new(x: i32, y: i32, z: i32) -> (r: Vec3)
        ensures
            r == Vec3::spec_new(x, y, z),
    {
        Vec3 { x: Fixed::from_millis(x), y: Fixed::from_millis(y), z: Fixed::from_millis(z) }
    }

    pub open spec fn spec_plus(self, rhs: Vec3) -> Vec3 {
        Vec3 { x: self.x.plus(rhs.x), y: self.y.plus(rhs.y), z: self.z.plus(rhs.z) }
    }

    /// Component-wise sum.
    #[verifier::when_used_as_spec(spec_plus)]
    pub fn plus(self, rhs: Vec3) -> (r: Vec3)
        ensures
            r == self.spec_plus(rhs),
    {
        Vec3 { x: self.x.plus(rhs.x), y: self.y.plus(rhs.y), z: self.z.plus(rhs.z) }
    }

    pub open spec fn spec_minus(self, rhs: Vec3) -> Vec3 {
        Vec3 { x: self.x.minus(rhs.x), y: self.y.minus(rhs.y), z: self.z.minus(rhs.z) }
    }

    /// Component-wise difference.
    #[verifier::when_used_as_spec(spec_minus)]
    pub fn minus(self, rhs: Vec3) -> (r: Vec3)
        ensures
            r == self.spec_minus(rhs),
    {
        Vec3 { x: self.x.minus(rhs.x), y: self.y.minus(rhs.y), z: self.z.minus(rhs.z) }
    }

    pub open spec fn spec_negated(self) -> Vec3 {
        Vec3 { x: self.x.negated(), y: self.y.negated(), z: self.z.negated() }
    }

    /// The opposite vector.
    #[verifier::when_used_as_spec(spec_negated)]
    pub fn negated(self) -> (r: Vec3)
        ensures
            r == self.spec_negated(),
    {
        Vec3 { x: self.x.negated(), y: self.y.negated(), z: self.z.negated() }
    }

    pub open spec fn spec_scaled(self, factor: Fixed) -> Vec3 {
        Vec3 { x: self.x.times(factor), y: self.y.times(factor), z: self.z.times(factor) }
    }

    /// Every component multiplied by `factor`.
    #[verifier::when_used_as_spec(spec_scaled)]
    pub fn scaled(self, factor: Fixed) -> (r: Vec3)
        ensures
            r == self.spec_scaled(factor),
    {
        Vec3 { x: self.x.times(factor), y: self.y.times(factor), z: self.z.times(factor) }
    }

    pub open spec fn spec_shrunk(self, divisor: Fixed) -> Vec3 {
        Vec3 { x: self.x.over(divisor), y: self.y.over(divisor), z: self.z.over(divisor) }
    }

    /// Every component divided by `divisor`.
    #[verifier::when_used_as_spec(spec_shrunk)]
    pub fn shrunk(self, divisor: Fixed) -> (r: Vec3)
        ensures
            r == self.spec_shrunk(divisor),
    {
        Vec3 { x: self.x.over(divisor), y: self.y.over(divisor), z: self.z.over(divisor) }
    }

    pub open spec fn spec_times(self, rhs: Vec3) -> Vec3 {
        Vec3 { x: self.x.times(rhs.x), y: self.y.times(rhs.y), z: self.z.times(rhs.z) }
    }

    /// Component-wise product.
    #[verifier::when_used_as_spec(spec_times)]
    pub fn times(self, rhs: Vec3) -> (r: Vec3)
        ensures
            r == self.spec_times(rhs),
    {
        Vec3 { x: self.x.times(rhs.x), y: self.y.times(rhs.y), z: self.z.times(rhs.z) }
    }

    pub open spec fn spec_over(self, rhs: Vec3) -> Vec3 {
        Vec3 { x: self.x.over(rhs.x), y: self.y.over(rhs.y), z: self.z.over(rhs.z) }
    }

    /// Component-wise quotient.
    #[verifier::when_used_as_spec(spec_over)]
    pub fn over(self, rhs: Vec3) -> (r: Vec3)
        ensures
            r == self.spec_over(rhs),
    {
        Vec3 { x: self.x.over(rhs.x), y: self.y.over(rhs.y), z: self.z.over(rhs.z) }
    }

    pub open spec fn spec_length(self) -> Fixed {
        self.x.times(self.x).plus(self.y.times(self.y)).plus(self.z.times(self.z)).sqrt()
    }

    /// Euclidean length.
    #[verifier::when_used_as_spec(spec_length)]
    pub fn length(self) -> (r: Fixed)
        ensures
            r == self.spec_length(),
    {
        self.x.times(self.x).plus(self.y.times(self.y)).plus(self.z.times(self.z)).sqrt()
    }

    pub open spec fn spec_normalized(self) -> Vec3 {
        self.shrunk(self.length())
    }

    /// The vector divided by its length.
    #[verifier::when_used_as_spec(spec_normalized)]
    pub fn normalized(self) -> (r: Vec3)
        ensures
            r == self.spec_normalized(),
    {
        self.shrunk(self.length())
    }

    pub open spec fn spec_cross(self, rhs: Vec3) -> Vec3 {
        Vec3 {
            x: self.y.times(rhs.z).minus(self.z.times(rhs.y)),
            y: self.z.times(rhs.x).minus(self.x.times(rhs.z)),
            z: self.x.times(rhs.y).minus(self.y.times(rhs.x)),
        }
    }

    /// Cross product.
    #[verifier::when_used_as_spec(spec_cross)]
    pub fn cross(self, rhs: Vec3) -> (r: Vec3)
        ensures
            r == self.spec_cross(rhs),
    {
        Vec3 {
            x: self.y.times(rhs.z).minus(self.z.times(rhs.y)),
            y: self.z.times(rhs.x).minus(self.x.times(rhs.z)),
            z: self.x.times(rhs.y).minus(self.y.times(rhs.x)),
        }
    }

    pub open spec fn spec_rotated_z(self, angle: Fixed) -> Vec3 {
        Vec3 {
            x: self.x.times(angle.cos()).minus(self.y.times(angle.sin())),
            y: self.x.times(angle.sin()).plus(self.y.times(angle.cos())),
            z: self.z,
        }
    }

    /// The vector turned counter-clockwise about the z axis by `angle`
    /// radians.
    #[verifier::when_used_as_spec(spec_rotated_z)]
    pub fn rotated_z(self, angle: Fixed) -> (r: Vec3)
        ensures
            r == self.spec_rotated_z(angle),
    {
        let c = angle.cos();
        let s = angle.sin();
        Vec3 {
            x: self.x.times(c).minus(self.y.times(s)),
            y: self.x.times(s).plus(self.y.times(c)),
            z: self.z,
        }
    }
}

} // verus!
