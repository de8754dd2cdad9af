//! Rounded rectangles.

use vstd::prelude::*;
use crate::gravity::axis::Axis2D;
use crate::gravity::build_trs::{Pose, TransformBuilder2D};
use crate::gravity::field::shaped::MakeColliders;
use crate::gravity::util::Sign;
use crate::gravity::util::util2d::{rot_x, rot_y, spec_rot_x, spec_rot_y, Basis2, SignVector2};

verus! {

/// The part of a rectangle that a position of the plane is nearest to.
#[derive(Clone, Copy, Debug, PartialEq, Eq, Structural)]
pub enum Region2 {
    /// Inside of the box: up is the direction from the centre to the
    /// position.
    Inside,
    /// Over one of the four sides: up is this unit vector, the outward normal
    /// of the side.
    Face(SignVector2),
    /// Over one of the four corners: up is the direction to the position from
    /// the corner, which is the size scaled by this vector.
    Corner(SignVector2),
}

/// The region of a rectangle over which a position with this excess lies.
pub open spec fn region_2d(excess: SignVector2) -> Region2 {
    if excess.length_squared() == 0 {
        Region2::Inside
    } else if excess.length_squared() == 1 {
        Region2::Face(excess)
    } else {
        Region2::Corner(excess)
    }
}

/// A capsule that rounds the two edges along one axis of a rectangle, or the
/// rectangle that fills it.
#[derive(Clone, Copy, Debug, PartialEq, Eq, Structural)]
pub enum Part2 {
    /// The rectangle itself, of the full size.
    Center,
    /// The capsule along this axis: as long as the size along the axis, and
    /// as thick as the edge radius.
    Edge(Axis2D),
}

/// Where a collider of a rectangle goes: the frame that orients it, and the
/// vector by which the size is scaled to place it.
pub type Placement2 = Pose<Basis2, SignVector2>;

/// Place of edge number `index` among the two edges along `axis`.
pub open spec fn edge_anchor_2d(axis: Axis2D, index: int) -> SignVector2 {
    match axis {
        Axis2D::X => SignVector2 {
            x: Sign::Zero,
            y: if index == 0 {
                Sign::Plus
            } else {
                Sign::Minus
            },
        },
        Axis2D::Y => SignVector2 {
            x: if index == 0 {
                Sign::Plus
            } else {
                Sign::Minus
            },
            y: Sign::Zero,
        },
    }
}

/// The axis with this number.
pub open spec fn axis_2d(number: int) -> Axis2D {
    if number == 0 {
        Axis2D::X
    } else {
        Axis2D::Y
    }
}

/// The frame of a capsule along `axis` in the plane.
pub open spec fn spec_rot_along(axis: Axis2D) -> Basis2 {
    match axis {
        Axis2D::X => spec_rot_x(),
        Axis2D::Y => spec_rot_y(),
    }
}

/// The identity placement of the plane.
pub open spec fn centered_2d() -> Placement2 {
    Pose { rotation: spec_rot_y(), origin: SignVector2 { x: Sign::Zero, y: Sign::Zero } }
}

/// The colliders of a rectangle: the rectangle that fills it unless it is
/// hollow, then two capsules for each axis.
pub open spec fn colliders_2d(filled: bool) -> Seq<(Part2, Placement2)> {
    let center = if filled {
        seq![(Part2::Center, centered_2d())]
    } else {
        Seq::empty()
    };
    center + Seq::new(
        4,
        |k: int|
            (
                Part2::Edge(axis_2d(k / 2)),
                Pose {
                    rotation: spec_rot_along(axis_2d(k / 2)),
                    origin: edge_anchor_2d(axis_2d(k / 2), k % 2),
                },
            ),
    )
}

/// Internal shapes of a rounded rectangle.
pub struct Internal {
    /// Whether a rectangle fills the shape: it does unless the shape is
    /// hollow.
    center: bool,
    /// Transforms of the capsules for each set of two parallel edges.
    edges: [TransformBuilder2D<1, 2>; 2],
}

impl Internal {
    #[verifier::type_invariant]
    spec fn wf(self) -> bool {
        forall|a: int|
            0 <= a < 2 ==> {
                &&& (#[trigger] self.edges[a]).rotations() == seq![spec_rot_along(axis_2d(a))]
                &&& self.edges[a].positions() == Seq::new(
                    2,
                    |i: int| edge_anchor_2d(axis_2d(a), i),
                )
            }
    }

    /// Whether a rectangle fills the shape.
    pub closed spec fn filled(self) -> bool {
        self.center
    }

    /// Create a rounded rectangle shape
    pub fn new(hollow: bool) -> (internal: Self)
        ensures
            internal.filled() == !hollow,
    {
        // prepare the transforms for the four edges
        let edges = [
            TransformBuilder2D::new(
                [rot_x()],
                [
                    SignVector2::new(Sign::Zero, Sign::Plus),
                    SignVector2::new(Sign::Zero, Sign::Minus),
                ],
            ),
            TransformBuilder2D::new(
                [rot_y()],
                [
                    SignVector2::new(Sign::Plus, Sign::Zero),
                    SignVector2::new(Sign::Minus, Sign::Zero),
                ],
            ),
        ];
        proof {
            assert forall|a: int| 0 <= a < 2 implies {
                &&& (#[trigger] edges[a]).rotations() == seq![spec_rot_along(axis_2d(a))]
                &&& edges[a].positions() == Seq::new(2, |i: int| edge_anchor_2d(axis_2d(a), i))
            } by {
                assert(edges[a].rotations() =~= seq![spec_rot_along(axis_2d(a))]);
                assert(edges[a].positions() =~= Seq::new(
                    2,
                    |i: int| edge_anchor_2d(axis_2d(a), i),
                ));
            }
        }

        // create the rounded shape
        Self { center: !hollow, edges }
    }
}

impl MakeColliders<Part2, Placement2> for Internal {
    /// Return a list of colliders
    fn colliders(&self) -> (shapes: Vec<(Part2, Placement2)>)
        ensures
            shapes@ == colliders_2d(self.filled()),
            shapes@.len() == (if self.filled() {
                5int
            } else {
                4int
            }),
    {
        proof {
            use_type_invariant(self);
        }
        let mut shapes: Vec<(Part2, Placement2)> = Vec::new();

        // Push the internal box into the list
        if self.center {
            shapes.push(
                (
                    Part2::Center,
                    Pose { rotation: rot_y(), origin: SignVector2::new(Sign::Zero, Sign::Zero) },
                ),
            );
        }
        let ghost offset = shapes@.len() as int;

        // add the shapes for the edges
        let mut a: usize = 0;
        while a < 2
            invariant
                a <= 2,
                self.wf(),
                offset == (if self.filled() {
                    1int
                } else {
                    0int
                }),
                shapes@.len() == offset + 2 * a,
                forall|k: int|
                    0 <= k < shapes@.len() ==> shapes@[k] == #[trigger] colliders_2d(
                        self.filled(),
                    )[k],
            decreases 2 - a,
        {
            let axis = if a == 0 {
                Axis2D::X
            } else {
                Axis2D::Y
            };
            let mut i: usize = 0;
            while i < 2
                invariant
                    i <= 2,
                    a < 2,
                    axis == axis_2d(a as int),
                    self.wf(),
                    offset == (if self.filled() {
                        1int
                    } else {
                        0int
                    }),
                    shapes@.len() == offset + 2 * a + i,
                    forall|k: int|
                        0 <= k < shapes@.len() ==> shapes@[k] == #[trigger] colliders_2d(
                            self.filled(),
                        )[k],
                decreases 2 - i,
            {
                let pose = self.edges[a].build(0, i);
                proof {
                    let k = 2 * a + i;
                    assert(k / 2 == a && k % 2 == i);
                    assert(self.edges[a as int].rotations()[0] == spec_rot_along(axis));
                    assert(self.edges[a as int].positions()[i as int] == edge_anchor_2d(
                        axis,
                        i as int,
                    ));
                }
                shapes.push((Part2::Edge(axis), pose));
                i = i + 1;
            }
            a = a + 1;
        }
        assert(shapes@ =~= colliders_2d(self.filled()));
        shapes
    }
}

/// Define a gravity based on a rounded rectangle.
///
/// The size and the edge radius are measured by the caller; the shape
/// keeps whether it is hollow, and its colliders once they are generated.
pub struct GravityShapedCuboid2D {
    /// Generated shapes
    internal: Option<Internal>,
    /// Is the cuboid filled or hollow?
    hollow: bool,
}

impl GravityShapedCuboid2D {
    #[verifier::type_invariant]
    spec fn wf(self) -> bool {
        self.internal matches Some(internal) ==> internal.filled() == !self.hollow
    }

    /// Is the cuboid filled or hollow?
    pub closed spec fn hollow(self) -> bool {
        self.hollow
    }

    /// Whether the colliders are at hand, generated for the parameters as
    /// they are.
    pub closed spec fn cached(self) -> bool {
        self.internal is Some
    }

    /// A filled rectangle.
    pub fn new() -> (shape: Self)
        ensures
            !shape.hollow(),
            !shape.cached(),
    {
        Self { internal: None, hollow: false }
    }

    /// Is the cuboid filled or hollow?
    pub fn is_hollow(&self) -> (hollow: bool)
        ensures
            hollow == self.hollow(),
    {
        self.hollow
    }

    /// Take a new size: the primitives stay the same ones, with new sizes.
    pub fn set_box_size(&mut self)
        ensures
            final(self).hollow() == old(self).hollow(),
            !final(self).cached(),
    {
        self.internal = None;
    }

    /// Take a new radius for the rounded edges: the primitives stay the
    /// same ones, with new sizes.
    pub fn set_edge_radius(&mut self)
        ensures
            final(self).hollow() == old(self).hollow(),
            !final(self).cached(),
    {
        self.internal = None;
    }

    /// Make the cuboid hollow, or filled.
    pub fn set_hollow(&mut self, hollow: bool)
        ensures
            final(self).hollow() == hollow,
            !final(self).cached(),
    {
        self.internal = None;
        self.hollow = hollow;
    }

    /// Pick the UP direction for a cuboid
    pub fn up_func(&self, excess: SignVector2) -> (region: Region2)
        ensures
            region == region_2d(excess),
    {
        let over_x = !excess.x.is_zero();
        let over_y = !excess.y.is_zero();
        if over_x && over_y {
            // over one of the four corners
            Region2::Corner(excess)
        } else if over_x || over_y {
            // over one of the four sides
            Region2::Face(excess)
        } else {
            // Inside of the box, should not happen
            Region2::Inside
        }
    }

    /// Return a list of colliders: those for the parameters as they are
    /// now, generated on the first call after a parameter was set and kept
    /// for the next ones.
    pub fn colliders(&mut self) -> (shapes: Vec<(Part2, Placement2)>)
        ensures
            shapes@ == colliders_2d(!old(self).hollow()),
            final(self).hollow() == old(self).hollow(),
            final(self).cached(),
    {
        proof {
            use_type_invariant(&*self);
        }
        // Recompute the internal shapes if requested
        if self.internal.is_none() {
            self.internal = Some(Internal::new(self.hollow));
        }
        // Ask the internal shape for its colliders set

        self.internal.as_ref().unwrap().colliders()
    }
}

/// The same in the plane: over the middle of a side, up is the outward unit
/// normal of that side.
pub proof fn lemma_up_over_side(axis: Axis2D, side: Sign, excess: SignVector2)
    requires
        side != Sign::Zero,
        excess.component(axis) == side,
        forall|other: Axis2D| other != axis ==> excess.component(other) == Sign::Zero,
    ensures
        region_2d(excess) == Region2::Face(excess),
        excess.length_squared() == 1,
        excess == axis.direction() || excess == axis.direction().opposite(),
{
    assert(excess.component(Axis2D::X) == excess.x);
    assert(excess.component(Axis2D::Y) == excess.y);
}

/// Every collider of a rectangle is the rectangle itself, at the centre, or
/// a capsule that lies along its axis on a side of the rectangle; and no two
/// colliders are the same.
pub proof fn lemma_colliders_2d(filled: bool)
    ensures
        colliders_2d(filled).len() == 4 + (if filled {
            1int
        } else {
            0int
        }),
        forall|k: int|
            0 <= k < colliders_2d(filled).len() ==> match (#[trigger] colliders_2d(filled)[k]).0 {
                Part2::Center => filled && k == 0 && colliders_2d(filled)[k].1 == centered_2d(),
                Part2::Edge(axis) => {
                    let pose = colliders_2d(filled)[k].1;
                    &&& pose.rotation.is_rotation()
                    &&& pose.rotation.col_b.component(axis) != Sign::Zero
                    &&& pose.origin.component(axis) == Sign::Zero
                    &&& pose.origin.length_squared() == 1
                },
            },
        forall|j: int, k: int|
            0 <= j < k < colliders_2d(filled).len() ==> colliders_2d(filled)[j] != colliders_2d(
                filled,
            )[k],
{
}

/// The capsules of a rectangle meet at its corners: along each axis, the
/// side that ends at a corner has its capsule, placed at the corner
/// flattened along that axis.
pub proof fn lemma_capsules_meet_at_corners(filled: bool, corner: SignVector2, axis: Axis2D)
    requires
        corner.length_squared() == 2,
    ensures
        corner.without(axis).length_squared() == 1,
        exists|k: int|
            0 <= k < colliders_2d(filled).len() && #[trigger] colliders_2d(filled)[k] == (
                Part2::Edge(axis),
                Pose::<Basis2, SignVector2> {
                    rotation: spec_rot_along(axis),
                    origin: corner.without(axis),
                },
            ),
{
    let offset: int = if filled {
        1
    } else {
        0
    };
    let anchor = corner.without(axis);
    let k: int = offset + (match axis {
        Axis2D::X => if anchor.y == Sign::Plus {
            0int
        } else {
            1int
        },
        Axis2D::Y => if anchor.x == Sign::Plus {
            2int
        } else {
            3int
        },
    });
    assert(colliders_2d(filled)[k] == (
        Part2::Edge(axis),
        Pose::<Basis2, SignVector2> { rotation: spec_rot_along(axis), origin: anchor },
    ));
}

} // verus!
