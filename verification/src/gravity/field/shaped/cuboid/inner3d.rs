//! Rounded boxes.

use vstd::prelude::*;
use crate::gravity::axis::Axis3D;
use crate::gravity::build_trs::{Pose, TransformBuilder3D};
use crate::gravity::field::shaped::MakeColliders;
use crate::gravity::util::Sign;
use crate::gravity::util::util3d::{
    basis_x,
    basis_y,
    basis_z,
    spec_basis_along,
    Basis3,
    SignVector3,
};

verus! {

/// The part of a box that a position of space is nearest to.
#[derive(Clone, Copy, Debug, PartialEq, Eq, Structural)]
pub enum Region3 {
    /// Inside of the box: up is the direction from the centre to the
    /// position.
    Inside,
    /// Over one of the six faces: up is this unit vector, the outward normal
    /// of the face.
    Face(SignVector3),
    /// Over one of the twelve edges: up is the direction from the nearest
    /// point of the edge to the position. With the position flattened along
    /// the axis `along` of the edge, that is the direction to it from the
    /// size scaled by `anchor`.
    Edge { anchor: SignVector3, along: Axis3D },
    /// Over one of the eight corners: up is the direction to the position
    /// from the corner, which is the size scaled by this vector.
    Corner(SignVector3),
}

/// The axis along which `excess` is zero, for an excess with one zero.
pub open spec fn free_axis(excess: SignVector3) -> Axis3D {
    if excess.x == Sign::Zero {
        Axis3D::X
    } else if excess.y == Sign::Zero {
        Axis3D::Y
    } else {
        Axis3D::Z
    }
}

/// The region of a box over which a position with this excess lies.
pub open spec fn region_3d(excess: SignVector3) -> Region3 {
    if excess.length_squared() == 0 {
        Region3::Inside
    } else if excess.length_squared() == 1 {
        Region3::Face(excess)
    } else if excess.length_squared() == 2 {
        Region3::Edge { anchor: excess, along: free_axis(excess) }
    } else {
        Region3::Corner(excess)
    }
}

/// A capsule that rounds the four edges along one axis of a box, or the box
/// that fills it.
#[derive(Clone, Copy, Debug, PartialEq, Eq, Structural)]
pub enum Part3 {
    /// The box itself, of the full size.
    Center,
    /// The capsule along this axis: as long as the size along the axis, and
    /// as thick as the edge radius.
    Edge(Axis3D),
}

/// Where a collider of a box goes: the frame that orients it, and the vector
/// by which the size is scaled to place it.
pub type Placement3 = Pose<Basis3, SignVector3>;

/// Place of edge number `index` among the four edges along `axis`. The
/// numbers go round the axis: each edge is next to the one before.
pub open spec fn edge_anchor_3d(axis: Axis3D, index: int) -> SignVector3 {
    let first = if index == 0 || index == 3 {
        Sign::Plus
    } else {
        Sign::Minus
    };
    let second = if index == 0 || index == 1 {
        Sign::Plus
    } else {
        Sign::Minus
    };
    match axis {
        Axis3D::X => SignVector3 { x: Sign::Zero, y: second, z: first },
        Axis3D::Y => SignVector3 { x: first, y: Sign::Zero, z: second },
        Axis3D::Z => SignVector3 { x: first, y: second, z: Sign::Zero },
    }
}

/// The axis with this number.
pub open spec fn axis_3d(number: int) -> Axis3D {
    if number == 0 {
        Axis3D::X
    } else if number == 1 {
        Axis3D::Y
    } else {
        Axis3D::Z
    }
}

/// The identity placement of space.
pub open spec fn centered_3d() -> Placement3 {
    Pose {
        rotation: Basis3::spec_identity(),
        origin: SignVector3 { x: Sign::Zero, y: Sign::Zero, z: Sign::Zero },
    }
}

/// The colliders of a box: the box that fills it unless it is hollow, then
/// four capsules for each axis.
pub open spec fn colliders_3d(filled: bool) -> Seq<(Part3, Placement3)> {
    let center = if filled {
        seq![(Part3::Center, centered_3d())]
    } else {
        Seq::empty()
    };
    center + Seq::new(
        12,
        |k: int|
            (
                Part3::Edge(axis_3d(k / 4)),
                Pose {
                    rotation: spec_basis_along(axis_3d(k / 4)),
                    origin: edge_anchor_3d(axis_3d(k / 4), k % 4),
                },
            ),
    )
}

/// Internal shapes of a rounded box.
pub struct Internal {
    /// Whether a box fills the shape: it does unless the shape is hollow.
    center: bool,
    /// Transforms of the capsules for each set of four parallel edges.
    edges: [TransformBuilder3D<1, 4>; 3],
}

impl Internal {
    #[verifier::type_invariant]
    spec fn wf(self) -> bool {
        forall|a: int|
            0 <= a < 3 ==> {
                &&& (#[trigger] self.edges[a]).rotations() == seq![spec_basis_along(axis_3d(a))]
                &&& self.edges[a].positions() == Seq::new(
                    4,
                    |i: int| edge_anchor_3d(axis_3d(a), i),
                )
            }
    }

    /// Whether a box fills the shape.
    pub closed spec fn filled(self) -> bool {
        self.center
    }

    /// Create a rounded box shape
    pub fn new(hollow: bool) -> (internal: Self)
        ensures
            internal.filled() == !hollow,
    {
        // prepare the transforms for the twelve edges
        let edges = [
            TransformBuilder3D::new(
                [basis_x()],
                [
                    SignVector3::new(Sign::Zero, Sign::Plus, Sign::Plus),
                    SignVector3::new(Sign::Zero, Sign::Plus, Sign::Minus),
                    SignVector3::new(Sign::Zero, Sign::Minus, Sign::Minus),
                    SignVector3::new(Sign::Zero, Sign::Minus, Sign::Plus),
                ],
            ),
            TransformBuilder3D::new(
                [basis_y()],
                [
                    SignVector3::new(Sign::Plus, Sign::Zero, Sign::Plus),
                    SignVector3::new(Sign::Minus, Sign::Zero, Sign::Plus),
                    SignVector3::new(Sign::Minus, Sign::Zero, Sign::Minus),
                    SignVector3::new(Sign::Plus, Sign::Zero, Sign::Minus),
                ],
            ),
            TransformBuilder3D::new(
                [basis_z()],
                [
                    SignVector3::new(Sign::Plus, Sign::Plus, Sign::Zero),
                    SignVector3::new(Sign::Minus, Sign::Plus, Sign::Zero),
                    SignVector3::new(Sign::Minus, Sign::Minus, Sign::Zero),
                    SignVector3::new(Sign::Plus, Sign::Minus, Sign::Zero),
                ],
            ),
        ];
        proof {
            assert forall|a: int| 0 <= a < 3 implies {
                &&& (#[trigger] edges[a]).rotations() == seq![spec_basis_along(axis_3d(a))]
                &&& edges[a].positions() == Seq::new(4, |i: int| edge_anchor_3d(axis_3d(a), i))
            } by {
                assert(edges[a].rotations() =~= seq![spec_basis_along(axis_3d(a))]);
                assert(edges[a].positions() =~= Seq::new(
                    4,
                    |i: int| edge_anchor_3d(axis_3d(a), i),
                ));
            }
        }

        // create the rounded shape
        Self { center: !hollow, edges }
    }
}

impl MakeColliders<Part3, Placement3> for Internal {
    /// Return a list of colliders
    fn colliders(&self) -> (shapes: Vec<(Part3, Placement3)>)
        ensures
            shapes@ == colliders_3d(self.filled()),
            shapes@.len() == (if self.filled() {
                13int
            } else {
                12int
            }),
    {
        proof {
            use_type_invariant(self);
        }
        let mut shapes: Vec<(Part3, Placement3)> = Vec::new();

        // Push the internal box into the list
        if self.center {
            shapes.push(
                (
                    Part3::Center,
                    Pose {
                        rotation: Basis3::identity(),
                        origin: SignVector3::new(Sign::Zero, Sign::Zero, Sign::Zero),
                    },
                ),
            );
        }
        let ghost offset = shapes@.len() as int;

        // add the shapes for the edges
        let mut a: usize = 0;
        while a < 3
            invariant
                a <= 3,
                self.wf(),
                offset == (if self.filled() {
                    1int
                } else {
                    0int
                }),
                shapes@.len() == offset + 4 * a,
                forall|k: int|
                    0 <= k < shapes@.len() ==> shapes@[k] == #[trigger] colliders_3d(
                        self.filled(),
                    )[k],
            decreases 3 - a,
        {
            let axis = if a == 0 {
                Axis3D::X
            } else if a == 1 {
                Axis3D::Y
            } else {
                Axis3D::Z
            };
            let mut i: usize = 0;
            while i < 4
                invariant
                    i <= 4,
                    a < 3,
                    axis == axis_3d(a as int),
                    self.wf(),
                    offset == (if self.filled() {
                        1int
                    } else {
                        0int
                    }),
                    shapes@.len() == offset + 4 * a + i,
                    forall|k: int|
                        0 <= k < shapes@.len() ==> shapes@[k] == #[trigger] colliders_3d(
                            self.filled(),
                        )[k],
                decreases 4 - i,
            {
                let pose = self.edges[a].build(0, i);
                proof {
                    let k = 4 * a + i;
                    assert(k / 4 == a && k % 4 == i);
                    assert(self.edges[a as int].rotations()[0] == spec_basis_along(axis));
                    assert(self.edges[a as int].positions()[i as int] == edge_anchor_3d(
                        axis,
                        i as int,
                    ));
                }
                shapes.push((Part3::Edge(axis), pose));
                i = i + 1;
            }
            a = a + 1;
        }
        assert(shapes@ =~= colliders_3d(self.filled()));
        shapes
    }
}

/// Define a gravity based on a rounded box.
///
/// The size and the edge radius are measured by the caller; the shape
/// keeps whether it is hollow, and its colliders once they are generated.
pub struct GravityShapedCuboid3D {
    /// Generated shapes
    internal: Option<Internal>,
    /// Is the cuboid filled or hollow?
    hollow: bool,
}

impl GravityShapedCuboid3D {
    #[verifier::type_invariant]
    spec fn wf(self) -> bool {
        self.internal matches Some(internal) ==> internal.filled() == !self.hollow
    }

    /// Is the cuboid filled or hollow?
    pub closed spec fn hollow(self) -> bool {
        self.hollow
    }

    /// Whether the colliders are at hand, generated for the parameters as
    /// they are.
    pub closed spec fn cached(self) -> bool {
        self.internal is Some
    }

    /// A filled box.
    pub fn new() -> (shape: Self)
        ensures
            !shape.hollow(),
            !shape.cached(),
    {
        Self { internal: None, hollow: false }
    }

    /// Is the cuboid filled or hollow?
    pub fn is_hollow(&self) -> (hollow: bool)
        ensures
            hollow == self.hollow(),
    {
        self.hollow
    }

    /// Take a new size: the primitives stay the same ones, with new sizes.
    pub fn set_box_size(&mut self)
        ensures
            final(self).hollow() == old(self).hollow(),
            !final(self).cached(),
    {
        self.internal = None;
    }

    /// Take a new radius for the rounded edges: the primitives stay the
    /// same ones, with new sizes.
    pub fn set_edge_radius(&mut self)
        ensures
            final(self).hollow() == old(self).hollow(),
            !final(self).cached(),
    {
        self.internal = None;
    }

    /// Make the cuboid hollow, or filled.
    pub fn set_hollow(&mut self, hollow: bool)
        ensures
            final(self).hollow() == hollow,
            !final(self).cached(),
    {
        self.internal = None;
        self.hollow = hollow;
    }

    /// Pick the UP direction for a cuboid
    pub fn up_func(&self, excess: SignVector3) -> (region: Region3)
        ensures
            region == region_3d(excess),
    {
        let over_x = !excess.x.is_zero();
        let over_y = !excess.y.is_zero();
        let over_z = !excess.z.is_zero();
        match (over_x, over_y, over_z) {
            // Inside of the box, should not happen
            (false, false, false) => Region3::Inside,
            // over one of the eight corners
            (true, true, true) => Region3::Corner(excess),
            // over one of the twelve edges
            (true, true, false) => Region3::Edge { anchor: excess, along: Axis3D::Z },
            (true, false, true) => Region3::Edge { anchor: excess, along: Axis3D::Y },
            (false, true, true) => Region3::Edge { anchor: excess, along: Axis3D::X },
            // over one of the six faces
            _ => Region3::Face(excess),
        }
    }

    /// Return a list of colliders: those for the parameters as they are
    /// now, generated on the first call after a parameter was set and kept
    /// for the next ones.
    pub fn colliders(&mut self) -> (shapes: Vec<(Part3, Placement3)>)
        ensures
            shapes@ == colliders_3d(!old(self).hollow()),
            final(self).hollow() == old(self).hollow(),
            final(self).cached(),
    {
        proof {
            use_type_invariant(&*self);
        }
        // Recompute the internal shapes if requested
        if self.internal.is_none() {
            self.internal = Some(Internal::new(self.hollow));
        }
        // Ask the internal shape for its colliders set

        self.internal.as_ref().unwrap().colliders()
    }
}

/// Just outside of the middle of a face, the position exceeds the box along
/// one axis only, and up is the outward unit normal of that face: along the
/// axis, on the side of the position.
pub proof fn lemma_up_over_face(axis: Axis3D, side: Sign, excess: SignVector3)
    requires
        side != Sign::Zero,
        excess.component(axis) == side,
        forall|other: Axis3D| other != axis ==> excess.component(other) == Sign::Zero,
    ensures
        region_3d(excess) == Region3::Face(excess),
        excess.length_squared() == 1,
        excess == axis.direction() || excess == axis.direction().opposite(),
        excess.dot(axis.direction()) == side.scale(axis.direction().component(axis).value()),
{
    assert(excess.component(Axis3D::X) == excess.x);
    assert(excess.component(Axis3D::Y) == excess.y);
    assert(excess.component(Axis3D::Z) == excess.z);
}

/// Beyond the box along two axes, up is no face normal: the position is over
/// the edge along the third axis, and one capsule of the box rounds that
/// very edge.
pub proof fn lemma_up_over_edge(excess: SignVector3)
    requires
        excess.length_squared() == 2,
    ensures
        region_3d(excess) == (Region3::Edge { anchor: excess, along: free_axis(excess) }),
        excess.component(free_axis(excess)) == Sign::Zero,
        exists|index: int|
            0 <= index < 4 && #[trigger] edge_anchor_3d(free_axis(excess), index) == excess,
{
    let axis = free_axis(excess);
    let index: int = match axis {
        Axis3D::X => if excess.y == Sign::Plus {
            if excess.z == Sign::Plus {
                0
            } else {
                1
            }
        } else {
            if excess.z == Sign::Plus {
                3
            } else {
                2
            }
        },
        Axis3D::Y => if excess.z == Sign::Plus {
            if excess.x == Sign::Plus {
                0
            } else {
                1
            }
        } else {
            if excess.x == Sign::Plus {
                3
            } else {
                2
            }
        },
        Axis3D::Z => if excess.y == Sign::Plus {
            if excess.x == Sign::Plus {
                0
            } else {
                1
            }
        } else {
            if excess.x == Sign::Plus {
                3
            } else {
                2
            }
        },
    };
    assert(edge_anchor_3d(axis, index) == excess);
}

/// Each capsule of a box sits on an edge of its own: in the middle of it
/// along its axis, at the full size along both others, and no two capsules
/// share an edge.
pub proof fn lemma_edge_anchors(axis: Axis3D, index: int, other: Axis3D, other_index: int)
    requires
        0 <= index < 4,
        0 <= other_index < 4,
    ensures
        edge_anchor_3d(axis, index).component(axis) == Sign::Zero,
        edge_anchor_3d(axis, index).length_squared() == 2,
        free_axis(edge_anchor_3d(axis, index)) == axis,
        edge_anchor_3d(axis, index) == edge_anchor_3d(other, other_index) ==> axis == other
            && index == other_index,
{
}

/// Every collider of a box is the box itself, at the centre, or a capsule
/// that lies along its axis on an edge of the box; every edge has its
/// capsule; and no two colliders are the same.
pub proof fn lemma_colliders_3d(filled: bool)
    ensures
        colliders_3d(filled).len() == 12 + (if filled {
            1int
        } else {
            0int
        }),
        forall|k: int|
            0 <= k < colliders_3d(filled).len() ==> match (#[trigger] colliders_3d(filled)[k]).0 {
                Part3::Center => filled && k == 0 && colliders_3d(filled)[k].1 == centered_3d(),
                Part3::Edge(axis) => {
                    let pose = colliders_3d(filled)[k].1;
                    &&& pose.rotation.is_rotation()
                    &&& pose.rotation.column(Axis3D::Y).component(axis) != Sign::Zero
                    &&& pose.origin.component(axis) == Sign::Zero
                    &&& pose.origin.length_squared() == 2
                },
            },
        forall|anchor: SignVector3|
            anchor.length_squared() == 2 ==> exists|k: int|
                0 <= k < colliders_3d(filled).len() && #[trigger] colliders_3d(filled)[k] == (
                    Part3::Edge(free_axis(anchor)),
                    Pose::<Basis3, SignVector3> {
                        rotation: spec_basis_along(free_axis(anchor)),
                        origin: anchor,
                    },
                ),
        forall|j: int, k: int|
            0 <= j < k < colliders_3d(filled).len() ==> colliders_3d(filled)[j] != colliders_3d(
                filled,
            )[k],
{
    let list = colliders_3d(filled);
    let offset: int = if filled {
        1
    } else {
        0
    };
    assert forall|anchor: SignVector3| anchor.length_squared() == 2 implies exists|k: int|
        0 <= k < list.len() && #[trigger] list[k] == (
            Part3::Edge(free_axis(anchor)),
            Pose::<Basis3, SignVector3> {
                rotation: spec_basis_along(free_axis(anchor)),
                origin: anchor,
            },
        ) by {
        lemma_up_over_edge(anchor);
        let axis = free_axis(anchor);
        let index = choose|index: int|
            0 <= index < 4 && #[trigger] edge_anchor_3d(axis, index) == anchor;
        let number: int = match axis {
            Axis3D::X => 0,
            Axis3D::Y => 1,
            Axis3D::Z => 2,
        };
        let k = offset + 4 * number + index;
        assert((4 * number + index) / 4 == number && (4 * number + index) % 4 == index);
        assert(list[k] == (
            Part3::Edge(axis),
            Pose::<Basis3, SignVector3> { rotation: spec_basis_along(axis), origin: anchor },
        ));
    }
    assert forall|j: int, k: int| 0 <= j < k < list.len() implies list[j] != list[k] by {
        if !(filled && j == 0) {
            let a = j - offset;
            let b = k - offset;
            lemma_edge_anchors(axis_3d(a / 4), a % 4, axis_3d(b / 4), b % 4);
        }
    }
}

/// The capsules of a box meet at its corners: along each axis, the edge
/// that ends at a corner has its capsule, placed at the corner flattened
/// along that axis. A rounded box has no gap at a corner.
pub proof fn lemma_capsules_meet_at_corners(filled: bool, corner: SignVector3, axis: Axis3D)
    requires
        corner.length_squared() == 3,
    ensures
        corner.without(axis).length_squared() == 2,
        free_axis(corner.without(axis)) == axis,
        exists|k: int|
            0 <= k < colliders_3d(filled).len() && #[trigger] colliders_3d(filled)[k] == (
                Part3::Edge(axis),
                Pose::<Basis3, SignVector3> {
                    rotation: spec_basis_along(axis),
                    origin: corner.without(axis),
                },
            ),
{
    lemma_colliders_3d(filled);
    let anchor = corner.without(axis);
    assert(anchor.length_squared() == 2);
}

} // verus!
