//! Center gravity fields: up points away from the origin of the field.

use vstd::prelude::*;
use crate::gravity::Level;
use crate::gravity::util::Sign;
use crate::gravity::util::util2d::{lemma_rotation_inverse as lemma_rotation_inverse_2d, Basis2, SignVector2};
use crate::gravity::util::util3d::{lemma_rotation_inverse as lemma_rotation_inverse_3d, Basis3, SignVector3};

verus! {

/// Define a gravity centered around a point.
#[derive(Clone, Copy, Debug, PartialEq, Eq, Structural)]
pub struct GravityCenter2D {
    /// Priority level
    pub level: Level,
    /// Inverse the gravity
    pub inverted: bool,
}

/// Define a gravity centered around a point.
#[derive(Clone, Copy, Debug, PartialEq, Eq, Structural)]
pub struct GravityCenter3D {
    /// Priority level
    pub level: Level,
    /// Inverse the gravity
    pub inverted: bool,
}

impl GravityCenter2D {
    /// The factor of each coordinate of a position in its up direction.
    pub open spec fn factors(self) -> SignVector2 {
        if self.inverted {
            SignVector2 { x: Sign::Minus, y: Sign::Minus }
        } else {
            SignVector2 { x: Sign::Plus, y: Sign::Plus }
        }
    }

    /// Up at the point `point` of the world, in the world and before it is
    /// brought to unit length, for a field that stands at `origin` with the
    /// axis-aligned frame `frame`: the point is taken into the space of the
    /// field, each coordinate by its factor, and the result turned back
    /// into the world.
    pub open spec fn global_up(self, frame: Basis2, origin: (int, int), point: (int, int)) -> (
        int,
        int,
    ) {
        let local = frame.apply_inverse((point.0 - origin.0, point.1 - origin.1));
        frame.apply((self.factors().x.scale(local.0), self.factors().y.scale(local.1)))
    }

    /// A field of level 0 that is not inverted.
    pub fn new() -> (field: Self)
        ensures
            field == (GravityCenter2D { level: 0, inverted: false }),
    {
        Self { level: 0, inverted: false }
    }

    /// Get the priority level
    #[inline]
    pub fn level(&self) -> (level: Level)
        ensures
            level == self.level,
    {
        self.level
    }

    /// Up direction is defined by the relative direction of the object: it
    /// is the position, each coordinate taken by the factor given here,
    /// brought to unit length.
    pub fn local_up(&self) -> (factors: SignVector2)
        ensures
            factors == self.factors(),
    {
        let up = SignVector2::new(Sign::Plus, Sign::Plus);

        // Check if the direction should be inverted
        if self.inverted {
            up.negated()
        } else {
            up
        }
    }
}

impl GravityCenter3D {
    /// The factor of each coordinate of a position in its up direction.
    pub open spec fn factors(self) -> SignVector3 {
        if self.inverted {
            SignVector3 { x: Sign::Minus, y: Sign::Minus, z: Sign::Minus }
        } else {
            SignVector3 { x: Sign::Plus, y: Sign::Plus, z: Sign::Plus }
        }
    }

    /// Up at the point `point` of the world, in the world and before it is
    /// brought to unit length, for a field that stands at `origin` with the
    /// axis-aligned frame `frame`: the point is taken into the space of the
    /// field, each coordinate by its factor, and the result turned back
    /// into the world.
    pub open spec fn global_up(
        self,
        frame: Basis3,
        origin: (int, int, int),
        point: (int, int, int),
    ) -> (int, int, int) {
        let local = frame.apply_inverse(
            (point.0 - origin.0, point.1 - origin.1, point.2 - origin.2),
        );
        frame.apply(
            (
                self.factors().x.scale(local.0),
                self.factors().y.scale(local.1),
                self.factors().z.scale(local.2),
            ),
        )
    }

    /// A field of level 0 that is not inverted.
    pub fn new() -> (field: Self)
        ensures
            field == (GravityCenter3D { level: 0, inverted: false }),
    {
        Self { level: 0, inverted: false }
    }

    /// Get the priority level
    #[inline]
    pub fn level(&self) -> (level: Level)
        ensures
            level == self.level,
    {
        self.level
    }

    /// Up direction is defined by the relative direction of the object: it
    /// is the position, each coordinate taken by the factor given here,
    /// brought to unit length.
    pub fn local_up(&self) -> (factors: SignVector3)
        ensures
            factors == self.factors(),
    {
        let up = SignVector3::new(Sign::Plus, Sign::Plus, Sign::Plus);

        // Check if the direction should be inverted
        if self.inverted {
            up.negated()
        } else {
            up
        }
    }
}

/// Every coordinate of a position enters its up direction by the same
/// factor, 1 or -1: before it is brought to unit length, up is the position
/// itself or its opposite, so that it lies on the line from the origin of
/// the field through the position, and it is zero at the origin.
pub proof fn lemma_center_up_3d(field: GravityCenter3D, position: (int, int, int))
    ensures
        field.factors().x == field.factors().y,
        field.factors().y == field.factors().z,
        field.factors().x != Sign::Zero,
        (GravityCenter3D { inverted: !field.inverted, ..field }).factors()
            == field.factors().opposite(),
        ({
            let up = (
                field.factors().x.scale(position.0),
                field.factors().y.scale(position.1),
                field.factors().z.scale(position.2),
            );
            if field.inverted {
                up == (-position.0, -position.1, -position.2)
            } else {
                up == position
            }
        }),
{
}

/// Every coordinate of a position enters its up direction by the same
/// factor, 1 or -1: before it is brought to unit length, up is the position
/// itself or its opposite.
pub proof fn lemma_center_up_2d(field: GravityCenter2D, position: (int, int))
    ensures
        field.factors().x == field.factors().y,
        field.factors().x != Sign::Zero,
        (GravityCenter2D { inverted: !field.inverted, ..field }).factors()
            == field.factors().opposite(),
        ({
            let up = (field.factors().x.scale(position.0), field.factors().y.scale(position.1));
            if field.inverted {
                up == (-position.0, -position.1)
            } else {
                up == position
            }
        }),
{
}

/// In the world, up leads from the origin of the field to the point, or
/// the other way for an inverted field, however the field is turned; and it
/// is zero at the origin. This is stated of a field whose frame is
/// axis-aligned and of points with integer coordinates, where it is exact.
pub proof fn lemma_center_global_up_3d(
    field: GravityCenter3D,
    frame: Basis3,
    origin: (int, int, int),
    point: (int, int, int),
)
    requires
        frame.is_rotation(),
    ensures
        field.global_up(frame, origin, point) == (if field.inverted {
            (origin.0 - point.0, origin.1 - point.1, origin.2 - point.2)
        } else {
            (point.0 - origin.0, point.1 - origin.1, point.2 - origin.2)
        }),
        point == origin ==> field.global_up(frame, origin, point) == (0int, 0int, 0int),
{
    let offset = (point.0 - origin.0, point.1 - origin.1, point.2 - origin.2);
    let opposite = (origin.0 - point.0, origin.1 - point.1, origin.2 - point.2);
    let local = frame.apply_inverse(offset);
    lemma_rotation_inverse_3d(frame, offset);
    lemma_rotation_inverse_3d(frame, opposite);
    if field.inverted {
        assert(frame.apply_inverse(opposite) == (-local.0, -local.1, -local.2));
    }
}

/// In the world, up leads from the origin of the field to the point, or
/// the other way for an inverted field, however the field is turned; and it
/// is zero at the origin. This is stated of a field whose frame is
/// axis-aligned and of points with integer coordinates, where it is exact.
pub proof fn lemma_center_global_up_2d(
    field: GravityCenter2D,
    frame: Basis2,
    origin: (int, int),
    point: (int, int),
)
    requires
        frame.is_rotation(),
    ensures
        field.global_up(frame, origin, point) == (if field.inverted {
            (origin.0 - point.0, origin.1 - point.1)
        } else {
            (point.0 - origin.0, point.1 - origin.1)
        }),
        point == origin ==> field.global_up(frame, origin, point) == (0int, 0int),
{
    let offset = (point.0 - origin.0, point.1 - origin.1);
    let opposite = (origin.0 - point.0, origin.1 - point.1);
    let local = frame.apply_inverse(offset);
    lemma_rotation_inverse_2d(frame, offset);
    lemma_rotation_inverse_2d(frame, opposite);
    if field.inverted {
        assert(frame.apply_inverse(opposite) == (-local.0, -local.1));
    }
}

} // verus!
