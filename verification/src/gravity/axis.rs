//! Selection of a coordinate axis.

use vstd::prelude::*;
use crate::gravity::util::Sign;
use crate::gravity::util::util2d::SignVector2;
use crate::gravity::util::util3d::SignVector3;

verus! {

/// Select an axis in 2D space.
#[derive(Clone, Copy, Debug, PartialEq, Eq, Hash, Structural)]
pub enum Axis2D {
    /// X-axis
    X,
    /// Y-axis
    Y,
}

/// Select an axis in 3D space.
#[derive(Clone, Copy, Debug, PartialEq, Eq, Hash, Structural)]
pub enum Axis3D {
    /// X-axis
    X,
    /// Y-axis
    Y,
    /// Z-axis
    Z,
}

impl Axis2D {
    /// The direction the axis stands for: right for X, and up for Y, which on
    /// a screen is the negative Y direction.
    pub open spec fn direction(self) -> SignVector2 {
        match self {
            Axis2D::X => SignVector2 { x: Sign::Plus, y: Sign::Zero },
            Axis2D::Y => SignVector2 { x: Sign::Zero, y: Sign::Minus },
        }
    }

    /// To vector
    pub fn to_vector(self) -> (v: SignVector2)
        ensures
            v == self.direction(),
            v.length_squared() == 1,
            v.component(self).value() != 0,
    {
        match self {
            Axis2D::X => SignVector2 { x: Sign::Plus, y: Sign::Zero },
            Axis2D::Y => SignVector2 { x: Sign::Zero, y: Sign::Minus },
        }
    }
}

impl Axis3D {
    /// The direction the axis stands for: right for X, up for Y, and forward
    /// for Z, which is the negative Z direction.
    pub open spec fn direction(self) -> SignVector3 {
        match self {
            Axis3D::X => SignVector3 { x: Sign::Plus, y: Sign::Zero, z: Sign::Zero },
            Axis3D::Y => SignVector3 { x: Sign::Zero, y: Sign::Plus, z: Sign::Zero },
            Axis3D::Z => SignVector3 { x: Sign::Zero, y: Sign::Zero, z: Sign::Minus },
        }
    }

    /// To vector
    pub fn to_vector(self) -> (v: SignVector3)
        ensures
            v == self.direction(),
            v.length_squared() == 1,
            v.component(self).value() != 0,
    {
        match self {
            Axis3D::X => SignVector3 { x: Sign::Plus, y: Sign::Zero, z: Sign::Zero },
            Axis3D::Y => SignVector3 { x: Sign::Zero, y: Sign::Plus, z: Sign::Zero },
            Axis3D::Z => SignVector3 { x: Sign::Zero, y: Sign::Zero, z: Sign::Minus },
        }
    }
}

/// The directions of two different axes are orthogonal.
pub proof fn lemma_axes_orthogonal_2d(a: Axis2D, b: Axis2D)
    requires
        a != b,
    ensures
        a.direction().dot(b.direction()) == 0,
{
}

/// The directions of two different axes are orthogonal.
pub proof fn lemma_axes_orthogonal_3d(a: Axis3D, b: Axis3D)
    requires
        a != b,
    ensures
        a.direction().dot(b.direction()) == 0,
{
}

} // verus!
