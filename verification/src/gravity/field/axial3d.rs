//! Axial gravity fields: up points away from an axis.

use vstd::prelude::*;
use crate::gravity::Level;
use crate::gravity::axis::Axis3D;
use crate::gravity::util::Sign;
use crate::gravity::util::util3d::{flatten_x, flatten_y, flatten_z, SignVector3};

verus! {

/// Define a gravity centered around an axis.
#[derive(Clone, Copy, Debug, PartialEq, Eq, Structural)]
pub struct GravityAxial3D {
    /// Priority level
    pub level: Level,
    /// Central Axis
    pub axis: Axis3D,
    /// Inverse the gravity
    pub inverted: bool,
}

impl GravityAxial3D {
    /// The factor of each coordinate of a position in its up direction:
    /// none along the axis, and the same one along both other axes.
    pub open spec fn factors(self) -> SignVector3 {
        let side = if self.inverted {
            Sign::Minus
        } else {
            Sign::Plus
        };
        match self.axis {
            Axis3D::X => SignVector3 { x: Sign::Zero, y: side, z: side },
            Axis3D::Y => SignVector3 { x: side, y: Sign::Zero, z: side },
            Axis3D::Z => SignVector3 { x: side, y: side, z: Sign::Zero },
        }
    }

    /// A field of level 0 round the Y axis.
    pub fn new() -> (field: Self)
        ensures
            field == (GravityAxial3D { level: 0, axis: Axis3D::Y, inverted: false }),
    {
        Self { level: 0, axis: Axis3D::Y, inverted: false }
    }

    /// Get the priority level
    #[inline]
    pub fn level(&self) -> (level: Level)
        ensures
            level == self.level,
    {
        self.level
    }

    /// Up direction is defined by the relative position of the object
    /// around the selected axis: it is the position, each coordinate taken
    /// by the factor given here, brought to unit length.
    pub fn local_up(&self) -> (factors: SignVector3)
        ensures
            factors == self.factors(),
    {
        let all = SignVector3::new(Sign::Plus, Sign::Plus, Sign::Plus);

        // Pick the up direction based on the axis selected
        let up = match self.axis {
            Axis3D::X => flatten_x(&all),
            Axis3D::Y => flatten_y(&all),
            Axis3D::Z => flatten_z(&all),
        };

        // Check if the direction should be inverted
        if self.inverted {
            up.negated()
        } else {
            up
        }
    }
}

/// Up is at a right angle to the axis of the field: the coordinate of a
/// position along the axis does not enter it, both others do by the same
/// factor, 1 or -1, and inverting the field turns the factors into their
/// opposites.
pub proof fn lemma_axial_up(field: GravityAxial3D, position: (int, int, int))
    ensures
        field.factors().component(field.axis) == Sign::Zero,
        field.factors().length_squared() == 2,
        field.factors().dot(field.axis.direction()) == 0,
        forall|other: Axis3D|
            other != field.axis ==> #[trigger] field.factors().component(other) == (if field.inverted {
                Sign::Minus
            } else {
                Sign::Plus
            }),
        (GravityAxial3D { inverted: !field.inverted, ..field }).factors()
            == field.factors().opposite(),
        ({
            let up = (
                field.factors().x.scale(position.0),
                field.factors().y.scale(position.1),
                field.factors().z.scale(position.2),
            );
            let axis = field.axis.direction().ints();
            up.0 * axis.0 + up.1 * axis.1 + up.2 * axis.2 == 0
        }),
{
    let axis = field.axis.direction().ints();
    match field.axis {
        Axis3D::X => {
            assert(axis == (1int, 0int, 0int));
            assert(field.factors().x.scale(position.0) == 0);
        },
        Axis3D::Y => {
            assert(axis == (0int, 1int, 0int));
            assert(field.factors().y.scale(position.1) == 0);
        },
        Axis3D::Z => {
            assert(axis == (0int, 0int, -1int));
            assert(field.factors().z.scale(position.2) == 0);
        },
    }
}

} // verus!
