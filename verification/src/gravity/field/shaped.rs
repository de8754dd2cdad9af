//! Gravity field backed by a shape.

use vstd::prelude::*;
use crate::gravity::Level;
use crate::gravity::util::Sign;
use crate::gravity::util::util2d::SignVector2;
use crate::gravity::util::util3d::SignVector3;

/// Define a cuboid shape
pub mod cuboid;

/// Define a shape backed by a curve
pub mod curve;

/// Define a ring shape
pub mod ring3d;

verus! {

/// Trait to implement a shape for a gravity field: over vectors of type
/// `V`, with colliders of type `Shp` placed by transforms of type `Trs`.
pub trait Shape<V, Shp, Trs> {
    /// Get the UP direction for the given position.
    fn up(&self, position: &V) -> V;

    /// Get the list of colliders to generate a static body.
    fn colliders(&mut self) -> Vec<(Shp, Trs)>;
}

/// Interface for internal shape representation
pub trait MakeColliders<Shp, Trs> {
    /// Get the list of colliders to generate a static body.
    fn colliders(&self) -> Vec<(Shp, Trs)>;
}

/// Define a gravity based on a supporting shape.
#[derive(Clone, Copy, Debug, PartialEq, Eq, Structural)]
pub struct GravityShaped2D {
    /// Priority level
    pub level: Level,
    /// Specify if a static body should be generated
    pub build_collider: bool,
    /// Inverse the gravity
    pub inverted: bool,
}

/// Define a gravity based on a supporting shape.
#[derive(Clone, Copy, Debug, PartialEq, Eq, Structural)]
pub struct GravityShaped3D {
    /// Priority level
    pub level: Level,
    /// Specify if a static body should be generated
    pub build_collider: bool,
    /// Inverse the gravity
    pub inverted: bool,
}

impl GravityShaped2D {
    /// A field of level 0 that builds no collider.
    pub fn new() -> (field: Self)
        ensures
            field == (GravityShaped2D { level: 0, build_collider: false, inverted: false }),
    {
        Self { level: 0, build_collider: false, inverted: false }
    }

    /// Get the priority level
    #[inline]
    pub fn level(&self) -> (level: Level)
        ensures
            level == self.level,
    {
        self.level
    }

    /// The field itself has no up direction anywhere, inverted or not: the
    /// direction comes from its shape.
    pub fn local_up<P>(&self, _position: &P) -> (up: SignVector2)
        ensures
            up == (SignVector2 { x: Sign::Zero, y: Sign::Zero }),
    {
        let up = SignVector2::new(Sign::Zero, Sign::Zero);

        // Check if the direction should be inverted
        if self.inverted {
            up.negated()
        } else {
            up
        }
    }

    /// Generate a static body, or none, from now on.
    pub fn set_build_collider(&mut self, set: bool)
        ensures
            *final(self) == (GravityShaped2D { build_collider: set, ..*old(self) }),
    {
        self.build_collider = set;
    }
}

impl GravityShaped3D {
    /// A field of level 0 that builds no collider.
    pub fn new() -> (field: Self)
        ensures
            field == (GravityShaped3D { level: 0, build_collider: false, inverted: false }),
    {
        Self { level: 0, build_collider: false, inverted: false }
    }

    /// Get the priority level
    #[inline]
    pub fn level(&self) -> (level: Level)
        ensures
            level == self.level,
    {
        self.level
    }

    /// The field itself has no up direction anywhere, inverted or not: the
    /// direction comes from its shape.
    pub fn local_up<P>(&self, _position: &P) -> (up: SignVector3)
        ensures
            up == (SignVector3 { x: Sign::Zero, y: Sign::Zero, z: Sign::Zero }),
    {
        let up = SignVector3::new(Sign::Zero, Sign::Zero, Sign::Zero);

        // Check if the direction should be inverted
        if self.inverted {
            up.negated()
        } else {
            up
        }
    }

    /// Generate a static body, or none, from now on.
    pub fn set_build_collider(&mut self, set: bool)
        ensures
            *final(self) == (GravityShaped3D { build_collider: set, ..*old(self) }),
    {
        self.build_collider = set;
    }
}

} // verus!
