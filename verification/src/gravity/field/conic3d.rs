//! Conic gravity fields: the flattened position of an axial field, with its
//! coordinates scaled by the height and the radius of a cone.

use vstd::prelude::*;
use crate::gravity::Level;
use crate::gravity::axis::Axis3D;
use crate::gravity::field::axial3d::GravityAxial3D;
use crate::gravity::util::Sign;
use crate::gravity::util::util3d::SignVector3;

verus! {

/// Define a gravity centered around a cone shape. The height and the radius
/// of the cone are measured by the caller.
#[derive(Clone, Copy, Debug, PartialEq, Eq, Structural)]
pub struct GravityConic3D {
    /// Priority level
    pub level: Level,
    /// Central Axis
    pub axis: Axis3D,
    /// Inverse the gravity
    pub inverted: bool,
}

impl GravityConic3D {
    /// The axial field round the same axis, inverted as this field is.
    pub open spec fn axial(self) -> GravityAxial3D {
        GravityAxial3D { level: self.level, axis: self.axis, inverted: self.inverted }
    }

    /// The factor of each coordinate of a position in its up direction, for
    /// a cone whose height has the sign `height`: the factors of the axial
    /// field, each times that sign. The coordinate along the axis has none,
    /// whatever the radius.
    pub open spec fn factors(self, height: Sign) -> SignVector3 {
        let axial = self.axial().factors();
        SignVector3 {
            x: axial.x.product(height),
            y: axial.y.product(height),
            z: axial.z.product(height),
        }
    }

    /// A field of level 0 round the Y axis.
    pub fn new() -> (field: Self)
        ensures
            field == (GravityConic3D { level: 0, axis: Axis3D::Y, inverted: false }),
    {
        Self { level: 0, axis: Axis3D::Y, inverted: false }
    }

    /// Get the priority level
    #[inline]
    pub fn level(&self) -> (level: Level)
        ensures
            level == self.level,
    {
        self.level
    }

    /// Up direction is defined by the relative position of the object
    /// around the selected axis. The position is flattened along the axis;
    /// its coordinate along the axis, which is zero by then, is scaled by
    /// the radius times the length of the flattened position, and both
    /// others by the height; the whole is brought to unit length. So up is
    /// the position, each coordinate taken by the factor given here for the
    /// sign of the height, brought to unit length.
    pub fn local_up(&self, height: Sign) -> (factors: SignVector3)
        ensures
            factors == self.factors(height),
            factors.component(self.axis) == Sign::Zero,
    {
        // Pick the up direction based on the axis selected
        let axial = GravityAxial3D { level: self.level, axis: self.axis, inverted: self.inverted };
        let up = axial.local_up();

        // Scale by the height what the flattening has left
        SignVector3::new(up.x.times(height), up.y.times(height), up.z.times(height))
    }
}

/// A cone with a height above zero gives the up direction of the axial
/// field round the same axis, whatever its radius, and so it does where the
/// height equals a radius above zero. A cone without height gives no
/// direction at all, and one with a height below zero the opposite one.
pub proof fn lemma_conic_up(field: GravityConic3D, height: Sign)
    ensures
        height == Sign::Plus ==> field.factors(height) == field.axial().factors(),
        height == Sign::Zero ==> field.factors(height) == (SignVector3 {
            x: Sign::Zero,
            y: Sign::Zero,
            z: Sign::Zero,
        }),
        height == Sign::Minus ==> field.factors(height) == field.axial().factors().opposite(),
        field.factors(height).component(field.axis) == Sign::Zero,
        field.factors(height).dot(field.axis.direction()) == 0,
        (GravityConic3D { inverted: !field.inverted, ..field }).factors(height) == field.factors(
            height,
        ).opposite(),
{
}

} // verus!
