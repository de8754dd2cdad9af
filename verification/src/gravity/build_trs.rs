//! Generic data structure for building transforms.

use vstd::prelude::*;
use vstd::std_specs::convert::FromSpecImpl;
use crate::gravity::util::util2d::{Basis2, SignVector2};
use crate::gravity::util::util3d::{Basis3, SignVector3};

verus! {

/// A rigid placement: a frame and the point its origin is moved to.
#[derive(Clone, Copy, Debug, PartialEq, Eq)]
pub struct Pose<Rot, Pos> {
    /// Orientation of the placed primitive.
    pub rotation: Rot,
    /// Where the centre of the placed primitive goes.
    pub origin: Pos,
}

/// Allow building transforms: `R` rotations and `P` positions, any of the
/// first to be paired with any of the second.
#[derive(Clone, Copy, Debug)]
pub struct TransformBuilder<Rot, const R: usize, Pos, const P: usize> {
    /// Set of rotation matrices
    rotations: [Rot; R],
    /// Set of position vectors
    positions: [Pos; P],
}

/// Build 2D transforms
pub type TransformBuilder2D<const R: usize, const P: usize> = TransformBuilder<
    Basis2,
    R,
    SignVector2,
    P,
>;

/// Build 3D transforms
pub type TransformBuilder3D<const R: usize, const P: usize> = TransformBuilder<
    Basis3,
    R,
    SignVector3,
    P,
>;

impl<Rot, const R: usize, Pos, const P: usize> TransformBuilder<Rot, R, Pos, P> {
    /// The rotations held, in order.
    pub closed spec fn rotations(&self) -> Seq<Rot> {
        self.rotations@
    }

    /// The positions held, in order.
    pub closed spec fn positions(&self) -> Seq<Pos> {
        self.positions@
    }

    /// Whether the builder holds these rotations and these positions.
    pub open spec fn made_of(&self, rotations: [Rot; R], positions: [Pos; P]) -> bool {
        self.rotations() == rotations@ && self.positions() == positions@
    }

    /// The pose made of rotation `index_rot` and position `index_pos`.
    pub open spec fn pose(&self, index_rot: int, index_pos: int) -> Pose<Rot, Pos> {
        Pose { rotation: self.rotations()[index_rot], origin: self.positions()[index_pos] }
    }

    /// Create a new builder from raw arrays
    #[inline]
    pub fn new(rotations: [Rot; R], positions: [Pos; P]) -> (builder: Self)
        ensures
            builder.made_of(rotations, positions),
            builder.rotations() == rotations@,
            builder.positions() == positions@,
            builder.rotations().len() == R,
            builder.positions().len() == P,
    {
        Self { rotations, positions }
    }

    /// Build a transform
    #[inline]
    pub fn build(&self, index_rot: usize, index_pos: usize) -> (pose: Pose<Rot, Pos>) where
        Rot: Copy,
        Pos: Copy,

        requires
            index_rot < R,
            index_pos < P,
        ensures
            pose == self.pose(index_rot as int, index_pos as int),
    {
        Pose { rotation: self.rotations[index_rot], origin: self.positions[index_pos] }
    }
}

/// Implement Default for Transform builder
impl<Rot, const R: usize, Pos, const P: usize> Default for TransformBuilder<Rot, R, Pos, P> where
    [Rot; R]: Default,
    [Pos; P]: Default,
 {
    /// Create a new builder of default rotations and positions
    #[inline]
    fn default() -> (builder: Self)
        ensures
            exists|rotations: [Rot; R], positions: [Pos; P]|
                {
                    &&& #[trigger] builder.made_of(rotations, positions)
                    &&& call_ensures(<[Rot; R] as Default>::default, (), rotations)
                    &&& call_ensures(<[Pos; P] as Default>::default, (), positions)
                },
    {
        let rotations: [Rot; R] = Default::default();
        let positions: [Pos; P] = Default::default();
        let builder = Self { rotations, positions };
        assert(builder.made_of(rotations, positions));
        builder
    }
}

/// Trivially transform a builder into a transform
impl<Rot: Copy, Pos: Copy> From<TransformBuilder<Rot, 1, Pos, 1>> for Pose<Rot, Pos> {
    fn from(value: TransformBuilder<Rot, 1, Pos, 1>) -> (pose: Self) {
        value.build(0, 0)
    }
}

impl<Rot: Copy, Pos: Copy> FromSpecImpl<TransformBuilder<Rot, 1, Pos, 1>> for Pose<Rot, Pos> {
    open spec fn obeys_from_spec() -> bool {
        true
    }

    open spec fn from_spec(value: TransformBuilder<Rot, 1, Pos, 1>) -> Self {
        value.pose(0, 0)
    }
}

} // verus!
