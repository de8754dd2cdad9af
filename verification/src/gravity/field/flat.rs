//! Flat gravity field: the same up direction everywhere.

use vstd::prelude::*;
use crate::gravity::Level;
use crate::gravity::axis::{Axis2D, Axis3D};
use crate::gravity::util::util2d::{Basis2, SignVector2};
use crate::gravity::util::util3d::{Basis3, SignVector3};

verus! {

/// Define a gravity based on an axis direction.
#[derive(Clone, Copy, Debug, PartialEq, Eq, Structural)]
pub struct GravityFlat2D {
    /// Priority level
    pub level: Level,
    /// Central Axis
    pub axis: Axis2D,
    /// Inverse the gravity
    pub inverted: bool,
}

/// Define a gravity based on an axis direction.
#[derive(Clone, Copy, Debug, PartialEq, Eq, Structural)]
pub struct GravityFlat3D {
    /// Priority level
    pub level: Level,
    /// Central Axis
    pub axis: Axis3D,
    /// Inverse the gravity
    pub inverted: bool,
}

impl GravityFlat2D {
    /// The up direction of the field in its own space.
    pub open spec fn up(self) -> SignVector2 {
        if self.inverted {
            self.axis.direction().opposite()
        } else {
            self.axis.direction()
        }
    }

    /// A field of level 0 whose up is the Y axis.
    pub fn new() -> (field: Self)
        ensures
            field == (GravityFlat2D { level: 0, axis: Axis2D::Y, inverted: false }),
    {
        Self { level: 0, axis: Axis2D::Y, inverted: false }
    }

    /// Get the priority level
    #[inline]
    pub fn level(&self) -> (level: Level)
        ensures
            level == self.level,
    {
        self.level
    }

    /// Up direction is solely defined by the axis selected
    pub fn local_up<P>(&self, _position: &P) -> (up: SignVector2)
        ensures
            up == self.up(),
            up.length_squared() == 1,
    {
        // Pick the up direction based on the axis selected
        let up = self.axis.to_vector();

        // Check if the direction should be inverted
        if self.inverted {
            up.negated()
        } else {
            up
        }
    }
}

impl GravityFlat3D {
    /// The up direction of the field in its own space.
    pub open spec fn up(self) -> SignVector3 {
        if self.inverted {
            self.axis.direction().opposite()
        } else {
            self.axis.direction()
        }
    }

    /// A field of level 0 whose up is the Y axis.
    pub fn new() -> (field: Self)
        ensures
            field == (GravityFlat3D { level: 0, axis: Axis3D::Y, inverted: false }),
    {
        Self { level: 0, axis: Axis3D::Y, inverted: false }
    }

    /// Get the priority level
    #[inline]
    pub fn level(&self) -> (level: Level)
        ensures
            level == self.level,
    {
        self.level
    }

    /// Up direction is solely defined by the axis selected
    pub fn local_up<P>(&self, _position: &P) -> (up: SignVector3)
        ensures
            up == self.up(),
            up.length_squared() == 1,
    {
        // Pick the up direction based on the axis selected
        let up = self.axis.to_vector();

        // Check if the direction should be inverted
        if self.inverted {
            up.negated()
        } else {
            up
        }
    }
}

/// The up direction of a flat field has length one, lies along the axis of
/// the field, and turns into its opposite when the field is inverted.
pub proof fn lemma_flat_up_2d(field: GravityFlat2D)
    ensures
        field.up().length_squared() == 1,
        field.up().component(field.axis) != crate::gravity::util::Sign::Zero,
        (GravityFlat2D { inverted: !field.inverted, ..field }).up() == field.up().opposite(),
        (GravityFlat2D { inverted: !field.inverted, ..field }).up().dot(field.up()) == -1,
{
}

/// The up direction of a flat field has length one, lies along the axis of
/// the field, and turns into its opposite when the field is inverted.
pub proof fn lemma_flat_up_3d(field: GravityFlat3D)
    ensures
        field.up().length_squared() == 1,
        field.up().component(field.axis) != crate::gravity::util::Sign::Zero,
        (GravityFlat3D { inverted: !field.inverted, ..field }).up() == field.up().opposite(),
        (GravityFlat3D { inverted: !field.inverted, ..field }).up().dot(field.up()) == -1,
{
}

/// In the world, the up direction of a flat field is its local one turned
/// by the frame of the field: it has length one wherever the point is, and
/// turns into its opposite when the field is inverted. This is stated of a
/// field whose frame is axis-aligned, where it is exact.
pub proof fn lemma_flat_global_up_3d(field: GravityFlat3D, frame: Basis3)
    requires
        frame.is_rotation(),
    ensures
        ({
            let up = frame.apply(field.up().ints());
            let inverted = frame.apply(
                (GravityFlat3D { inverted: !field.inverted, ..field }).up().ints(),
            );
            &&& up.0 * up.0 + up.1 * up.1 + up.2 * up.2 == 1
            &&& inverted == (-up.0, -up.1, -up.2)
        }),
{
    let up = frame.apply(field.up().ints());
    let a: int = if up.0 == 0 {
        0
    } else {
        1
    };
    let b: int = if up.1 == 0 {
        0
    } else {
        1
    };
    let c: int = if up.2 == 0 {
        0
    } else {
        1
    };
    assert(up.0 == 0 || up.0 == 1 || up.0 == -1);
    assert(up.1 == 0 || up.1 == 1 || up.1 == -1);
    assert(up.2 == 0 || up.2 == 1 || up.2 == -1);
    assert(a + b + c == 1);
    assert(up.0 * up.0 == a) by (nonlinear_arith)
        requires
            up.0 == 0 && a == 0 || (up.0 == 1 || up.0 == -1) && a == 1,
    ;
    assert(up.1 * up.1 == b) by (nonlinear_arith)
        requires
            up.1 == 0 && b == 0 || (up.1 == 1 || up.1 == -1) && b == 1,
    ;
    assert(up.2 * up.2 == c) by (nonlinear_arith)
        requires
            up.2 == 0 && c == 0 || (up.2 == 1 || up.2 == -1) && c == 1,
    ;
}

/// In the world, the up direction of a flat field is its local one turned
/// by the frame of the field: it has length one wherever the point is, and
/// turns into its opposite when the field is inverted. This is stated of a
/// field whose frame is axis-aligned, where it is exact.
pub proof fn lemma_flat_global_up_2d(field: GravityFlat2D, frame: Basis2)
    requires
        frame.is_rotation(),
    ensures
        ({
            let local = field.up();
            let up = frame.apply((local.x.value(), local.y.value()));
            let other = (GravityFlat2D { inverted: !field.inverted, ..field }).up();
            let inverted = frame.apply((other.x.value(), other.y.value()));
            &&& up.0 * up.0 + up.1 * up.1 == 1
            &&& inverted == (-up.0, -up.1)
        }),
{
    let local = field.up();
    let up = frame.apply((local.x.value(), local.y.value()));
    assert(up.0 == 0 || up.0 == 1 || up.0 == -1);
    assert(up.1 == 0 || up.1 == 1 || up.1 == -1);
}

} // verus!
