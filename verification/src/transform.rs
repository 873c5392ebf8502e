//! The painter's current pose: where it is, how it is turned and scaled.

use vstd::prelude::*;
use crate::fixed::Fixed;
use crate::trig::TAU;
use crate::vector::{Quat, Vec3};

verus! {

/// A position, a rotation in space, and a scale.
///
/// The rotation is held in two parts: the attitude that the transform was
/// given, and the turn about its own z axis that was made since, in
/// radians and within one turn. Together they are the attitude followed
/// by the turn. Turning about the z axis, which is all that a painter
/// does, only adds to the angle, so it loses nothing to rounding.
///
/// A transform is a plain value: copying it takes a snapshot, and assigning
/// a copy back restores it.
#[derive(Clone, Copy, Debug, PartialEq, Eq, Structural)]
pub struct Transform {
    pub translation: Vec3,
    pub orientation: Quat,
    pub rotation: Fixed,
    pub scale: Vec3,
}

impl Transform {
    pub open spec fn spec_identity() -> Transform {
        Transform {
            translation: Vec3::new(0, 0, 0),
            orientation: Quat::identity(),
            rotation: Fixed { raw: 0 },
            scale: Vec3::new(1000, 1000, 1000),
        }
    }

    /// At the origin, not turned, at scale one.
    #[verifier::when_used_as_spec(spec_identity)]
    pub fn identity() -> (t: Transform)
        ensures
            t == Transform::spec_identity(),
    {
        Transform {
            translation: Vec3::new(0, 0, 0),
            orientation: Quat::identity(),
            rotation: Fixed { raw: 0 },
            scale: Vec3::new(1000, 1000, 1000),
        }
    }

    #[verifier::opaque]
    pub open spec fn spec_translated(self, delta: Vec3) -> Transform {
        Transform {
            translation: self.translation.plus(
                self.orientation.turned(delta.rotated_z(self.rotation)).times(self.scale),
            ),
            orientation: self.orientation,
            rotation: self.rotation,
            scale: self.scale,
        }
    }

    /// Moved by `delta` along the transform's own axes: the step is turned
    /// by the current rotation, first about the z axis and then into the
    /// attitude, and stretched by the current scale before it is added to
    /// the position.
    #[verifier::when_used_as_spec(spec_translated)]
    pub fn translated(self, delta: Vec3) -> (t: Transform)
        ensures
            t == self.spec_translated(delta),
    {
        reveal(Transform::spec_translated);
        Transform {
            translation: self.translation.plus(
                self.orientation.turned(delta.rotated_z(self.rotation)).times(self.scale),
            ),
            orientation: self.orientation,
            rotation: self.rotation,
            scale: self.scale,
        }
    }

    pub open spec fn spec_scaled(self, factor: Vec3) -> Transform {
        Transform {
            translation: self.translation,
            orientation: self.orientation,
            rotation: self.rotation,
            scale: self.scale.times(factor),
        }
    }

    /// Stretched by `factor` along each of its own axes.
    #[verifier::when_used_as_spec(spec_scaled)]
    pub fn scaled(self, factor: Vec3) -> (t: Transform)
        ensures
            t == self.spec_scaled(factor),
    {
        Transform {
            translation: self.translation,
            orientation: self.orientation,
            rotation: self.rotation,
            scale: self.scale.times(factor),
        }
    }

    pub open spec fn spec_rotated_z(self, angle: Fixed) -> Transform {
        Transform {
            translation: self.translation,
            orientation: self.orientation,
            rotation: Fixed { raw: ((self.rotation@ + angle@) % (TAU as int)) as i64 },
            scale: self.scale,
        }
    }

    /// Turned by a further `angle` radians about its own z axis. The
    /// rotation is kept within one turn.
    #[verifier::when_used_as_spec(spec_rotated_z)]
    pub fn rotated_z(self, angle: Fixed) -> (t: Transform)
        ensures
            t == self.spec_rotated_z(angle),
            0 <= t.rotation@ < TAU,
    {
        let sum: i128 = self.rotation.raw as i128 + angle.raw as i128;
        let r: i128 = sum % (TAU as i128);
        let wrapped: i128 = if r < 0 {
            r + TAU as i128
        } else {
            r
        };
        Transform {
            translation: self.translation,
            orientation: self.orientation,
            rotation: Fixed { raw: wrapped as i64 },
            scale: self.scale,
        }
    }
}

} // verus!
