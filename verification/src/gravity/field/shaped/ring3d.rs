//! Ring shapes: a disc, a torus, a tube or a "bolt", picked by the radii
//! and the height, round the Y axis.
//!
//! The rim of a ring is a polygon of as many slices as the ring has
//! vertices. This module decides which primitives make up each slice and
//! where they go, as a frame and an offset to be turned round the axis by
//! the angle of the slice. The lengths come from the caller: a rim of radius
//! `r` cut in `n` slices has edges of length `2·r·sin(π/n)` at the distance
//! `r·cos(π/n)` from the axis.

use vstd::prelude::*;
use crate::gravity::build_trs::{Pose, TransformBuilder};
use crate::gravity::field::shaped::MakeColliders;
use crate::gravity::util::Sign;
use crate::gravity::util::util3d::{
    basis_y,
    basis_z,
    quarter_turns,
    Basis3,
    SignVector3,
};
use crate::gravity::axis::Axis3D;

verus! {

/// The representation of a ring by primitives.
#[derive(Clone, Copy, Debug, PartialEq, Eq, Structural)]
pub enum RingKind {
    /// Torus or filled disc
    Torus {
        /// Whether a central shape fills the disc.
        fill: bool,
    },
    /// Hollow disc
    Flat,
    /// Tube or filled cylinder
    Tube {
        /// Whether a central shape fills the tube.
        fill: bool,
    },
    /// "Bolt" shape, similar to a tube but with extra thickness
    Bolt,
}

/// The circle that an offset lies on.
#[derive(Clone, Copy, Debug, PartialEq, Eq, Structural)]
pub enum Rim {
    /// The outer rim, at the outer radius.
    Outer,
    /// The inner rim, at the inner radius.
    Inner,
    /// The circle midway between both rims.
    Middle,
}

/// Offset of a primitive before its slice is turned into place: on the X
/// axis at the distance of `rim`, and half of the height up if it is raised.
#[derive(Clone, Copy, Debug, PartialEq, Eq, Structural)]
pub struct Offset {
    pub rim: Rim,
    pub raised: bool,
}

/// One of the shapes that a ring is made of.
#[derive(Clone, Copy, Debug, PartialEq, Eq, Structural)]
pub enum RingPart {
    /// Convex shape that fills the disc or the tube.
    Fill,
    /// Capsule along an edge of the only rim of a torus or a tube.
    Border,
    /// Capsule along an edge of the outer rim.
    Outer,
    /// Capsule along an edge of the inner rim.
    Inner,
    /// Box of a slice, from rim to rim or from bottom to top.
    Center,
    /// Second box of a slice of a bolt.
    Wall,
    /// Upright capsule at a vertex of the rim, from bottom to top.
    Vertical,
}

/// Where a collider of a ring goes.
#[derive(Clone, Copy, Debug, PartialEq, Eq)]
pub enum RingPlacement {
    /// At the centre, as it is.
    Centered,
    /// In a slice: `pose` is turned round the Y axis by the angle of the
    /// slice, and then mirrored to the bottom if `mirrored` is set.
    Slice {
        /// Number of the slice, below the vertex count.
        slice: u32,
        /// Whether the slice straddles two vertices, half a step further
        /// than the vertex of its number.
        shifted: bool,
        /// Frame and offset before the turn.
        pose: Pose<Basis3, Offset>,
        /// Whether the height of the origin is negated after the turn.
        mirrored: bool,
    },
}

/// How the up direction is found around a ring.
#[derive(Clone, Copy, Debug, PartialEq, Eq, Structural)]
pub enum RingUp {
    /// In the hole, level with the ring: toward the axis.
    Inward,
    /// Outside of the ring, level with it: away from the axis.
    Outward,
    /// Over or under the band between the rims, or within it, or on the
    /// axis of the ring: this vector, straight away from the plane of the
    /// ring, or zero where nothing tells a direction.
    Vertical(SignVector3),
    /// Over or under the hole: away from the nearest point of the inner rim,
    /// on the side of the ring that this sign tells.
    InnerRim(Sign),
    /// Over or under the outside: away from the nearest point of the outer
    /// rim, on the side of the ring that this sign tells.
    OuterRim(Sign),
}

/// The representation for a ring, from the signs of its height, of its
/// inner radius, and of the gap that the inner radius leaves to the outer
/// one. A ring with height is a tube or a bolt, one without a torus or a
/// flat disc; it is a bolt or a flat disc where it has a hole and a width.
pub open spec fn kind_for(height: Sign, inner: Sign, gap: Sign) -> RingKind {
    let thin_border = gap != Sign::Plus;
    let filled = inner != Sign::Plus;
    if height == Sign::Plus {
        if thin_border || filled {
            RingKind::Tube { fill: filled }
        } else {
            RingKind::Bolt
        }
    } else if thin_border || filled {
        RingKind::Torus { fill: filled }
    } else {
        RingKind::Flat
    }
}

/// Number of colliders in each slice of a ring.
pub open spec fn slice_len(kind: RingKind) -> int {
    match kind {
        RingKind::Torus { .. } => 1,
        RingKind::Flat => 3,
        RingKind::Tube { .. } => 3,
        RingKind::Bolt => 6,
    }
}

/// Whether upright capsules stand at the vertices of the ring.
pub open spec fn has_uprights(kind: RingKind) -> bool {
    kind is Tube || kind is Bolt
}

/// Whether a central shape fills the ring.
pub open spec fn has_fill(kind: RingKind) -> bool {
    match kind {
        RingKind::Torus { fill } => fill,
        RingKind::Tube { fill } => fill,
        _ => false,
    }
}

/// Number of colliders of a ring of `vertex_count` vertices.
pub open spec fn collider_count(kind: RingKind, vertex_count: int) -> int {
    slice_len(kind) * vertex_count + (if has_uprights(kind) {
        vertex_count
    } else {
        0
    }) + (if has_fill(kind) {
        1int
    } else {
        0int
    })
}

/// The frame that lays a capsule along the edge of a slice.
pub open spec fn along_edge() -> Basis3 {
    quarter_turns(Axis3D::X, 1)
}

/// The frame that leaves a primitive upright.
pub open spec fn upright() -> Basis3 {
    Basis3::spec_identity()
}

/// Collider number `number` of slice `slice`.
pub open spec fn slice_collider(kind: RingKind, slice: int, number: int) -> (
    RingPart,
    RingPlacement,
) {
    let top = |part: RingPart, rotation: Basis3, rim: Rim, raised: bool, mirrored: bool|
        (
            part,
            RingPlacement::Slice {
                slice: slice as u32,
                shifted: true,
                pose: Pose { rotation, origin: Offset { rim, raised } },
                mirrored,
            },
        );
    match kind {
        RingKind::Torus { .. } => top(RingPart::Border, along_edge(), Rim::Outer, false, false),
        RingKind::Flat => if number == 0 {
            top(RingPart::Outer, along_edge(), Rim::Outer, false, false)
        } else if number == 1 {
            top(RingPart::Inner, along_edge(), Rim::Inner, false, false)
        } else {
            top(RingPart::Center, upright(), Rim::Middle, false, false)
        },
        RingKind::Tube { .. } => if number == 0 {
            top(RingPart::Border, along_edge(), Rim::Outer, true, false)
        } else if number == 1 {
            top(RingPart::Border, along_edge(), Rim::Outer, true, true)
        } else {
            top(RingPart::Center, upright(), Rim::Outer, false, false)
        },
        RingKind::Bolt => if number == 0 {
            top(RingPart::Outer, along_edge(), Rim::Outer, true, false)
        } else if number == 1 {
            top(RingPart::Inner, along_edge(), Rim::Inner, true, false)
        } else if number == 2 {
            top(RingPart::Outer, along_edge(), Rim::Outer, true, true)
        } else if number == 3 {
            top(RingPart::Inner, along_edge(), Rim::Inner, true, true)
        } else if number == 4 {
            top(RingPart::Center, upright(), Rim::Middle, false, false)
        } else {
            top(RingPart::Wall, upright(), Rim::Middle, false, true)
        },
    }
}

/// The upright capsule at vertex `slice` of the outer rim.
pub open spec fn upright_collider(slice: int) -> (RingPart, RingPlacement) {
    (
        RingPart::Vertical,
        RingPlacement::Slice {
            slice: slice as u32,
            shifted: false,
            pose: Pose { rotation: upright(), origin: Offset { rim: Rim::Outer, raised: false } },
            mirrored: false,
        },
    )
}

/// Collider number `index` of a ring: the slices come first, one after the
/// other, then the upright capsules of a tube or a bolt, then the shape
/// that fills the ring.
pub open spec fn collider_at(kind: RingKind, vertex_count: int, index: int) -> (
    RingPart,
    RingPlacement,
) {
    let in_slices = slice_len(kind) * vertex_count;
    if index < in_slices {
        slice_collider(kind, index / slice_len(kind), index % slice_len(kind))
    } else if has_uprights(kind) && index < in_slices + vertex_count {
        upright_collider(index - in_slices)
    } else {
        (RingPart::Fill, RingPlacement::Centered)
    }
}

/// Where the colliders of a slice stand among all colliders of the ring.
pub proof fn lemma_slice_collider_at(kind: RingKind, vertex_count: int, slice: int, number: int)
    requires
        0 <= slice < vertex_count,
        0 <= number < slice_len(kind),
    ensures
        0 <= slice_len(kind) * slice + number < slice_len(kind) * vertex_count,
        collider_at(kind, vertex_count, slice_len(kind) * slice + number) == slice_collider(
            kind,
            slice,
            number,
        ),
{
    let len = slice_len(kind);
    let index = len * slice + number;
    assert(index / len == slice && index % len == number) by {
        vstd::arithmetic::div_mod::lemma_fundamental_div_mod_converse(index, len, slice, number);
    }
    assert(index < len * vertex_count) by (nonlinear_arith)
        requires
            index == len * slice + number,
            0 <= number < len,
            0 <= slice < vertex_count,
    ;
}

/// The colliders of a ring of `vertex_count` vertices.
pub open spec fn ring_colliders(kind: RingKind, vertex_count: int) -> Seq<
    (RingPart, RingPlacement),
> {
    Seq::new(
        collider_count(kind, vertex_count) as nat,
        |index: int| collider_at(kind, vertex_count, index),
    )
}

/// How up is found at a position, from its place across the ring, from
/// whether it lies on the axis of the ring, from whether it lies beyond the
/// band of the height, and from its side of the plane of the ring.
///
/// On the axis no direction leads away from the axis, and no point of a rim
/// is nearer than the others: the direction across the ring counts as zero
/// there. Level with the ring that leaves no direction, unless the axis
/// runs through the band; beyond the band it leaves the vertical one.
pub open spec fn ring_up_for(radial: Sign, on_axis: bool, beyond: bool, side: Sign) -> RingUp {
    let straight = RingUp::Vertical(SignVector3 { x: Sign::Zero, y: side, z: Sign::Zero });
    let nowhere = RingUp::Vertical(
        SignVector3 { x: Sign::Zero, y: Sign::Zero, z: Sign::Zero },
    );
    if radial == Sign::Zero {
        straight
    } else if on_axis {
        if beyond {
            straight
        } else {
            nowhere
        }
    } else if beyond {
        if radial == Sign::Minus {
            RingUp::InnerRim(side)
        } else {
            RingUp::OuterRim(side)
        }
    } else {
        if radial == Sign::Minus {
            RingUp::Inward
        } else {
            RingUp::Outward
        }
    }
}

/// Angle of a slice, in half steps: in halves of the angle between two
/// vertices, of which a full turn has twice the vertex count.
pub fn half_steps(slice: u32, shifted: bool) -> (steps: u64)
    ensures
        steps == 2 * slice + (if shifted {
            1int
        } else {
            0int
        }),
{
    let slice: u64 = slice as u64;
    if shifted {
        2 * slice + 1
    } else {
        2 * slice
    }
}

/// Corners of the convex shape that fills a ring: for each vertex of the
/// rim in turn, the corner above it and the corner below it.
pub fn make_convex(vertex_count: u32) -> (points: Vec<(u32, Sign)>)
    ensures
        points@.len() == 2 * vertex_count,
        forall|j: int|
            0 <= j < points@.len() ==> #[trigger] points@[j] == ((j / 2) as u32, if j % 2 == 0 {
                Sign::Plus
            } else {
                Sign::Minus
            }),
{
    // build the vertices
    let mut points: Vec<(u32, Sign)> = Vec::new();
    let mut i: u32 = 0;
    while i < vertex_count
        invariant
            i <= vertex_count,
            points@.len() == 2 * i,
            forall|j: int|
                0 <= j < points@.len() ==> #[trigger] points@[j] == (
                    (j / 2) as u32,
                    if j % 2 == 0 {
                        Sign::Plus
                    } else {
                        Sign::Minus
                    },
                ),
        decreases vertex_count - i,
    {
        points.push((i, Sign::Plus));
        points.push((i, Sign::Minus));
        i = i + 1;
    }
    points
}

/// The frames and the offsets of the primitives of a slice, before the
/// slice is turned into place.
#[derive(Clone, Copy, Debug)]
enum Slices {
    /// Torus or filled disc: the capsule of the border.
    Torus { border: TransformBuilder<Basis3, 1, Offset, 1> },
    /// Hollow disc: both capsules and the box between them.
    Flat { transform: TransformBuilder<Basis3, 2, Offset, 3> },
    /// Tube or filled cylinder: the capsule of the border and the box of the
    /// wall.
    Tube { transform: TransformBuilder<Basis3, 2, Offset, 2> },
    /// Bolt: both capsules and the box between them.
    Bolt { transform: TransformBuilder<Basis3, 2, Offset, 3> },
}

/// Internal representation of the collision shapes of a ring.
#[derive(Clone, Copy, Debug)]
pub struct Internal {
    /// Which primitives make up the ring.
    kind: RingKind,
    /// Number of vertices of the rim, and of slices between them.
    vertex_count: u32,
    /// Transforms for the slice of shapes
    slices: Slices,
}

/// add the upright capsules to the provided list
fn add_entries(list: &mut Vec<(RingPart, RingPlacement)>, vertex_count: u32)
    ensures
        final(list)@ == old(list)@ + Seq::new(
            vertex_count as nat,
            |slice: int| upright_collider(slice),
        ),
{
    let ghost before = list@;
    let mut slice: u32 = 0;
    while slice < vertex_count
        invariant
            slice <= vertex_count,
            list@ == before + Seq::new(slice as nat, |slice: int| upright_collider(slice)),
        decreases vertex_count - slice,
    {
        list.push(
            (
                RingPart::Vertical,
                RingPlacement::Slice {
                    slice,
                    shifted: false,
                    pose: Pose {
                        rotation: basis_y(),
                        origin: Offset { rim: Rim::Outer, raised: false },
                    },
                    mirrored: false,
                },
            ),
        );
        slice = slice + 1;
        assert(list@ =~= before + Seq::new(slice as nat, |slice: int| upright_collider(slice)));
    }
}

/// A collider of a slice that straddles two vertices.
fn in_slice(part: RingPart, slice: u32, pose: Pose<Basis3, Offset>, mirrored: bool) -> (entry: (
    RingPart,
    RingPlacement,
))
    ensures
        entry == (part, RingPlacement::Slice { slice, shifted: true, pose, mirrored }),
{
    (part, RingPlacement::Slice { slice, shifted: true, pose, mirrored })
}

impl Internal {
    #[verifier::type_invariant]
    spec fn wf(self) -> bool {
        match self.slices {
            Slices::Torus { border } => {
                &&& self.kind is Torus
                &&& border.rotations() == seq![along_edge()]
                &&& border.positions() == seq![Offset { rim: Rim::Outer, raised: false }]
            },
            Slices::Flat { transform } => {
                &&& self.kind is Flat
                &&& transform.rotations() == seq![along_edge(), upright()]
                &&& transform.positions() == seq![
                    Offset { rim: Rim::Outer, raised: false },
                    Offset { rim: Rim::Inner, raised: false },
                    Offset { rim: Rim::Middle, raised: false },
                ]
            },
            Slices::Tube { transform } => {
                &&& self.kind is Tube
                &&& transform.rotations() == seq![along_edge(), upright()]
                &&& transform.positions() == seq![
                    Offset { rim: Rim::Outer, raised: true },
                    Offset { rim: Rim::Outer, raised: false },
                ]
            },
            Slices::Bolt { transform } => {
                &&& self.kind is Bolt
                &&& transform.rotations() == seq![along_edge(), upright()]
                &&& transform.positions() == seq![
                    Offset { rim: Rim::Outer, raised: true },
                    Offset { rim: Rim::Inner, raised: true },
                    Offset { rim: Rim::Middle, raised: false },
                ]
            },
        }
    }

    /// Which primitives make up the ring.
    pub closed spec fn spec_kind(self) -> RingKind {
        self.kind
    }

    /// Number of vertices of the rim, and of slices between them.
    pub closed spec fn spec_vertex_count(self) -> u32 {
        self.vertex_count
    }

    /// Pick the representation of a ring of `vertex_count` vertices from the
    /// signs of its height, of its inner radius, and of the gap that the
    /// inner radius leaves to the outer one.
    pub fn new(height: Sign, inner: Sign, gap: Sign, vertex_count: u32) -> (internal: Self)
        ensures
            internal.spec_kind() == kind_for(height, inner, gap),
            internal.spec_vertex_count() == vertex_count,
    {
        let thin_border = !matches!(gap, Sign::Plus);
        let filled = !matches!(inner, Sign::Plus);

        if matches!(height, Sign::Plus) {
            if thin_border || filled {
                Self::new_tube(vertex_count, filled)
            } else {
                Self::new_bolt(vertex_count)
            }
        } else if thin_border || filled {
            Self::new_torus(vertex_count, filled)
        } else {
            Self::new_flat(vertex_count)
        }
    }

    /// Create a torus shape
    pub fn new_torus(vertex_count: u32, fill: bool) -> (internal: Self)
        ensures
            internal.spec_kind() == (RingKind::Torus { fill }),
            internal.spec_vertex_count() == vertex_count,
    {
        // one capsule along the edge of each section of the ring
        let border = TransformBuilder::new(
            [basis_z()],
            [Offset { rim: Rim::Outer, raised: false }],
        );
        proof {
            assert(border.rotations() =~= seq![along_edge()]);
            assert(border.positions() =~= seq![Offset { rim: Rim::Outer, raised: false }]);
        }

        // Complete the torus shape
        Internal { kind: RingKind::Torus { fill }, vertex_count, slices: Slices::Torus { border } }
    }

    /// Create a hollowed disc shape
    pub fn new_flat(vertex_count: u32) -> (internal: Self)
        ensures
            internal.spec_kind() == RingKind::Flat,
            internal.spec_vertex_count() == vertex_count,
    {
        // build transforms for each section of the ring
        let transform = TransformBuilder::new(
            [basis_z(), basis_y()],
            [
                Offset { rim: Rim::Outer, raised: false },
                Offset { rim: Rim::Inner, raised: false },
                Offset { rim: Rim::Middle, raised: false },
            ],
        );
        proof {
            assert(transform.rotations() =~= seq![along_edge(), upright()]);
            assert(transform.positions() =~= seq![
                Offset { rim: Rim::Outer, raised: false },
                Offset { rim: Rim::Inner, raised: false },
                Offset { rim: Rim::Middle, raised: false },
            ]);
        }

        // Complete the flatten ring shape
        Internal { kind: RingKind::Flat, vertex_count, slices: Slices::Flat { transform } }
    }

    /// Create a tube shape
    pub fn new_tube(vertex_count: u32, fill: bool) -> (internal: Self)
        ensures
            internal.spec_kind() == (RingKind::Tube { fill }),
            internal.spec_vertex_count() == vertex_count,
    {
        // build transforms for each section of the ring
        let transform = TransformBuilder::new(
            [basis_z(), basis_y()],
            [Offset { rim: Rim::Outer, raised: true }, Offset { rim: Rim::Outer, raised: false }],
        );
        proof {
            assert(transform.rotations() =~= seq![along_edge(), upright()]);
            assert(transform.positions() =~= seq![
                Offset { rim: Rim::Outer, raised: true },
                Offset { rim: Rim::Outer, raised: false },
            ]);
        }

        // Complete the tube shape
        Internal { kind: RingKind::Tube { fill }, vertex_count, slices: Slices::Tube { transform } }
    }

    /// Create a bolt shape
    pub fn new_bolt(vertex_count: u32) -> (internal: Self)
        ensures
            internal.spec_kind() == RingKind::Bolt,
            internal.spec_vertex_count() == vertex_count,
    {
        // build transforms for each section of the ring
        let transform = TransformBuilder::new(
            [basis_z(), basis_y()],
            [
                Offset { rim: Rim::Outer, raised: true },
                Offset { rim: Rim::Inner, raised: true },
                Offset { rim: Rim::Middle, raised: false },
            ],
        );
        proof {
            assert(transform.rotations() =~= seq![along_edge(), upright()]);
            assert(transform.positions() =~= seq![
                Offset { rim: Rim::Outer, raised: true },
                Offset { rim: Rim::Inner, raised: true },
                Offset { rim: Rim::Middle, raised: false },
            ]);
        }

        // Complete the bolt shape
        Internal { kind: RingKind::Bolt, vertex_count, slices: Slices::Bolt { transform } }
    }

    /// Which primitives make up the ring.
    pub fn kind(&self) -> (kind: RingKind)
        ensures
            kind == self.spec_kind(),
    {
        self.kind
    }

    /// Number of vertices of the rim, and of slices between them.
    pub fn vertex_count(&self) -> (count: u32)
        ensures
            count == self.spec_vertex_count(),
    {
        self.vertex_count
    }

    /// Number of colliders of the ring.
    pub fn len(&self) -> (count: u64)
        ensures
            count == collider_count(self.spec_kind(), self.spec_vertex_count() as int),
    {
        let n: u64 = self.vertex_count as u64;
        match self.kind {
            RingKind::Torus { fill } => if fill {
                n + 1
            } else {
                n
            },
            RingKind::Flat => 3 * n,
            RingKind::Tube { fill } => if fill {
                4 * n + 1
            } else {
                4 * n
            },
            RingKind::Bolt => 7 * n,
        }
    }
}

impl MakeColliders<RingPart, RingPlacement> for Internal {
    /// Return a list of colliders
    fn colliders(&self) -> (colliders: Vec<(RingPart, RingPlacement)>)
        ensures
            colliders@ == ring_colliders(self.spec_kind(), self.spec_vertex_count() as int),
    {
        proof {
            use_type_invariant(self);
        }
        let n = self.vertex_count;
        let mut colliders: Vec<(RingPart, RingPlacement)> = Vec::new();
        match &self.slices {
            Slices::Torus { border } => {
                let mut slice: u32 = 0;
                while slice < n
                    invariant
                        slice <= n,
                        n == self.vertex_count,
                        self.kind is Torus,
                        border.rotations() == seq![along_edge()],
                        border.positions() == seq![Offset { rim: Rim::Outer, raised: false }],
                        colliders@.len() == slice,
                        forall|k: int|
                            0 <= k < colliders@.len() ==> #[trigger] colliders@[k] == collider_at(
                                self.kind,
                                n as int,
                                k,
                            ),
                    decreases n - slice,
                {
                    colliders.push(in_slice(RingPart::Border, slice, border.build(0, 0), false));
                    slice = slice + 1;
                }
            },
            Slices::Flat { transform } => {
                let mut slice: u32 = 0;
                while slice < n
                    invariant
                        slice <= n,
                        n == self.vertex_count,
                        self.kind == RingKind::Flat,
                        transform.rotations() == seq![along_edge(), upright()],
                        transform.positions() == seq![
                            Offset { rim: Rim::Outer, raised: false },
                            Offset { rim: Rim::Inner, raised: false },
                            Offset { rim: Rim::Middle, raised: false },
                        ],
                        colliders@.len() == 3 * slice,
                        forall|k: int|
                            0 <= k < colliders@.len() ==> #[trigger] colliders@[k] == collider_at(
                                self.kind,
                                n as int,
                                k,
                            ),
                    decreases n - slice,
                {
                    colliders.push(in_slice(RingPart::Outer, slice, transform.build(0, 0), false));
                    colliders.push(in_slice(RingPart::Inner, slice, transform.build(0, 1), false));
                    colliders.push(in_slice(RingPart::Center, slice, transform.build(1, 2), false));
                    proof {
                        lemma_slice_collider_at(self.kind, n as int, slice as int, 0);
                        lemma_slice_collider_at(self.kind, n as int, slice as int, 1);
                        lemma_slice_collider_at(self.kind, n as int, slice as int, 2);
                    }
                    slice = slice + 1;
                }
            },
            Slices::Tube { transform } => {
                let mut slice: u32 = 0;
                while slice < n
                    invariant
                        slice <= n,
                        n == self.vertex_count,
                        self.kind is Tube,
                        transform.rotations() == seq![along_edge(), upright()],
                        transform.positions() == seq![
                            Offset { rim: Rim::Outer, raised: true },
                            Offset { rim: Rim::Outer, raised: false },
                        ],
                        colliders@.len() == 3 * slice,
                        forall|k: int|
                            0 <= k < colliders@.len() ==> #[trigger] colliders@[k] == collider_at(
                                self.kind,
                                n as int,
                                k,
                            ),
                    decreases n - slice,
                {
                    // position the two capsule borders
                    let trs = transform.build(0, 0);
                    colliders.push(in_slice(RingPart::Border, slice, trs, false));
                    colliders.push(in_slice(RingPart::Border, slice, trs, true));

                    // position the wall in the center
                    colliders.push(in_slice(RingPart::Center, slice, transform.build(1, 1), false));
                    proof {
                        lemma_slice_collider_at(self.kind, n as int, slice as int, 0);
                        lemma_slice_collider_at(self.kind, n as int, slice as int, 1);
                        lemma_slice_collider_at(self.kind, n as int, slice as int, 2);
                    }
                    slice = slice + 1;
                }
                // add the vertical capsules
                add_entries(&mut colliders, n);
            },
            Slices::Bolt { transform } => {
                let mut slice: u32 = 0;
                while slice < n
                    invariant
                        slice <= n,
                        n == self.vertex_count,
                        self.kind == RingKind::Bolt,
                        transform.rotations() == seq![along_edge(), upright()],
                        transform.positions() == seq![
                            Offset { rim: Rim::Outer, raised: true },
                            Offset { rim: Rim::Inner, raised: true },
                            Offset { rim: Rim::Middle, raised: false },
                        ],
                        colliders@.len() == 6 * slice,
                        forall|k: int|
                            0 <= k < colliders@.len() ==> #[trigger] colliders@[k] == collider_at(
                                self.kind,
                                n as int,
                                k,
                            ),
                    decreases n - slice,
                {
                    // position the border capsules
                    let outer_trs = transform.build(0, 0);
                    let inner_trs = transform.build(0, 1);
                    colliders.push(in_slice(RingPart::Outer, slice, outer_trs, false));
                    colliders.push(in_slice(RingPart::Inner, slice, inner_trs, false));
                    colliders.push(in_slice(RingPart::Outer, slice, outer_trs, true));
                    colliders.push(in_slice(RingPart::Inner, slice, inner_trs, true));

                    // position the inner walls
                    let trs = transform.build(1, 2);
                    colliders.push(in_slice(RingPart::Center, slice, trs, false));
                    colliders.push(in_slice(RingPart::Wall, slice, trs, true));
                    proof {
                        lemma_slice_collider_at(self.kind, n as int, slice as int, 0);
                        lemma_slice_collider_at(self.kind, n as int, slice as int, 1);
                        lemma_slice_collider_at(self.kind, n as int, slice as int, 2);
                        lemma_slice_collider_at(self.kind, n as int, slice as int, 3);
                        lemma_slice_collider_at(self.kind, n as int, slice as int, 4);
                        lemma_slice_collider_at(self.kind, n as int, slice as int, 5);
                    }
                    slice = slice + 1;
                }
                // add the vertical capsules
                add_entries(&mut colliders, n);
            },
        }
        let fill = match self.kind {
            RingKind::Torus { fill } => fill,
            RingKind::Tube { fill } => fill,
            _ => false,
        };
        if fill {
            colliders.push((RingPart::Fill, RingPlacement::Centered));
        }
        assert(colliders@ =~= ring_colliders(self.kind, self.vertex_count as int));
        colliders
    }
}

/// Define a gravity based on a ring round the Y axis.
///
/// The radii and the height are measured by the caller. The shape keeps
/// what the choice of its primitives depends on: the signs of the height
/// and of the inner radius, and the sign of the gap, which is the outer
/// radius less the inner one and never negative.
pub struct GravityShapeRing3D {
    /// Generated shapes
    internal: Option<Internal>,
    /// Sign of the height of the ring.
    height: Sign,
    /// Sign of the inner radius of the ring.
    inner: Sign,
    /// Sign of the outer radius less the inner radius.
    gap: Sign,
    /// Number of vertices to generate
    vertex_count: u32,
}

impl GravityShapeRing3D {
    #[verifier::type_invariant]
    spec fn wf(self) -> bool {
        &&& self.gap != Sign::Minus
        &&& self.vertex_count >= 3
        &&& self.internal matches Some(internal) ==> {
            &&& internal.spec_kind() == kind_for(self.height, self.inner, self.gap)
            &&& internal.spec_vertex_count() == self.vertex_count
        }
    }

    /// Sign of the height of the ring.
    pub closed spec fn height_sign(self) -> Sign {
        self.height
    }

    /// Sign of the inner radius of the ring.
    pub closed spec fn inner_sign(self) -> Sign {
        self.inner
    }

    /// Sign of the outer radius less the inner radius.
    pub closed spec fn gap_sign(self) -> Sign {
        self.gap
    }

    /// Number of vertices of the rim.
    pub closed spec fn spec_vertex_count(self) -> u32 {
        self.vertex_count
    }

    /// Whether the colliders are at hand, generated for the parameters
    /// as they are.
    pub closed spec fn cached(self) -> bool {
        self.internal is Some
    }

    /// The representation that the parameters call for.
    pub open spec fn kind(self) -> RingKind {
        kind_for(self.height_sign(), self.inner_sign(), self.gap_sign())
    }

    /// A disc of 24 vertices: no height, no hole, and an outer radius above
    /// zero.
    pub fn new() -> (shape: Self)
        ensures
            shape.height_sign() == Sign::Zero,
            shape.inner_sign() == Sign::Zero,
            shape.gap_sign() == Sign::Plus,
            shape.spec_vertex_count() == 24,
            !shape.cached(),
    {
        Self {
            internal: None,
            height: Sign::Zero,
            inner: Sign::Zero,
            gap: Sign::Plus,
            vertex_count: 24,
        }
    }

    /// Number of vertices of the rim. A rim has three vertices at least.
    pub fn vertex_count(&self) -> (count: u32)
        ensures
            count == self.spec_vertex_count(),
            count >= 3,
    {
        proof {
            use_type_invariant(self);
        }
        self.vertex_count
    }

    /// The representation that the parameters call for.
    pub fn representation(&self) -> (kind: RingKind)
        ensures
            kind == self.kind(),
    {
        Internal::new(self.height, self.inner, self.gap, self.vertex_count).kind()
    }

    /// Sign of the height of the ring.
    pub fn height(&self) -> (sign: Sign)
        ensures
            sign == self.height_sign(),
    {
        self.height
    }

    /// Sign of the inner radius of the ring.
    pub fn inner_radius(&self) -> (sign: Sign)
        ensures
            sign == self.inner_sign(),
    {
        self.inner
    }

    /// Sign of the outer radius less the inner radius. It is never
    /// negative: the inner radius is at most the outer one.
    pub fn gap(&self) -> (sign: Sign)
        ensures
            sign == self.gap_sign(),
            sign != Sign::Minus,
    {
        proof {
            use_type_invariant(self);
        }
        self.gap
    }

    /// Take a new outer radius: `outer` is its sign, and `gap` the sign of
    /// what it leaves above the inner radius. An outer radius below the
    /// inner one forces the inner radius down to match: the answer is
    /// whether it does.
    pub fn set_outer_radius(&mut self, outer: Sign, gap: Sign) -> (lowered: bool)
        ensures
            lowered == (gap == Sign::Minus),
            final(self).gap_sign() == (if lowered {
                Sign::Zero
            } else {
                gap
            }),
            final(self).inner_sign() == (if lowered {
                outer
            } else {
                old(self).inner_sign()
            }),
            final(self).height_sign() == old(self).height_sign(),
            final(self).spec_vertex_count() == old(self).spec_vertex_count(),
            !final(self).cached(),
    {
        proof {
            use_type_invariant(&*self);
        }
        self.internal = None;
        // enforce that the inner radius is smaller than the outer radius
        let lowered = matches!(gap, Sign::Minus);
        if lowered {
            self.inner = outer;
            self.gap = Sign::Zero;
        } else {
            self.gap = gap;
        }
        lowered
    }

    /// Take a new inner radius: `inner` is its sign, and `gap` the sign of
    /// what it leaves below the outer radius. An inner radius above the
    /// outer one forces the outer radius up to match: the answer is whether
    /// it does.
    pub fn set_inner_radius(&mut self, inner: Sign, gap: Sign) -> (raised: bool)
        ensures
            raised == (gap == Sign::Minus),
            final(self).gap_sign() == (if raised {
                Sign::Zero
            } else {
                gap
            }),
            final(self).inner_sign() == inner,
            final(self).height_sign() == old(self).height_sign(),
            final(self).spec_vertex_count() == old(self).spec_vertex_count(),
            !final(self).cached(),
    {
        proof {
            use_type_invariant(&*self);
        }
        self.internal = None;
        // enforce that the outer radius is greater than the inner radius
        let raised = matches!(gap, Sign::Minus);
        self.inner = inner;
        if raised {
            self.gap = Sign::Zero;
        } else {
            self.gap = gap;
        }
        raised
    }

    /// Take a new height, of which `height` is the sign.
    pub fn set_height(&mut self, height: Sign)
        ensures
            final(self).height_sign() == height,
            final(self).inner_sign() == old(self).inner_sign(),
            final(self).gap_sign() == old(self).gap_sign(),
            final(self).spec_vertex_count() == old(self).spec_vertex_count(),
            !final(self).cached(),
    {
        proof {
            use_type_invariant(&*self);
        }
        self.internal = None;
        self.height = height;
    }

    /// Take a new radius for the rounded edges: the primitives stay the
    /// same ones, with new sizes.
    pub fn set_edge_radius(&mut self)
        ensures
            final(self).height_sign() == old(self).height_sign(),
            final(self).inner_sign() == old(self).inner_sign(),
            final(self).gap_sign() == old(self).gap_sign(),
            final(self).spec_vertex_count() == old(self).spec_vertex_count(),
            !final(self).cached(),
    {
        proof {
            use_type_invariant(&*self);
        }
        self.internal = None;
    }

    /// Take a new number of vertices, and three where fewer are asked for:
    /// no rim has fewer.
    pub fn set_vertex_count(&mut self, count: u32)
        ensures
            final(self).spec_vertex_count() == (if count < 3 {
                3u32
            } else {
                count
            }),
            final(self).height_sign() == old(self).height_sign(),
            final(self).inner_sign() == old(self).inner_sign(),
            final(self).gap_sign() == old(self).gap_sign(),
            !final(self).cached(),
    {
        proof {
            use_type_invariant(&*self);
        }
        self.internal = None;
        self.vertex_count = if count < 3 {
            3
        } else {
            count
        };
    }

    /// Pick the UP direction for a ring.
    ///
    /// `radial` tells where the position lies across the ring: minus in the
    /// hole, nearer to the axis than the inner radius; plus outside, further
    /// than the outer radius; zero between both. `on_axis` tells whether
    /// the position lies on the axis of the ring, at no distance from it.
    /// `beyond` tells whether the position is further from the plane of the
    /// ring than half of the height, and `side` is the sign of its height
    /// over that plane.
    pub fn up(&self, radial: Sign, on_axis: bool, beyond: bool, side: Sign) -> (region: RingUp)
        ensures
            region == ring_up_for(radial, on_axis, beyond, side),
            on_axis ==> region is Vertical,
    {
        let straight = RingUp::Vertical(SignVector3::new(Sign::Zero, side, Sign::Zero));
        // based on the place of the object deduce the up direction
        match (radial, beyond) {
            // Between the rims and within the height: inside of the ring,
            // this should never happen.
            (Sign::Zero, _) => straight,
            (_, true) if on_axis => straight,
            (_, false) if on_axis => RingUp::Vertical(
                SignVector3::new(Sign::Zero, Sign::Zero, Sign::Zero),
            ),
            (Sign::Minus, false) => RingUp::Inward,
            (Sign::Plus, false) => RingUp::Outward,
            (Sign::Minus, true) => RingUp::InnerRim(side),
            (Sign::Plus, true) => RingUp::OuterRim(side),
        }
    }

    /// Return a list of colliders: those of the representation that the
    /// parameters call for as they are now, generated on the first call
    /// after a parameter was set and kept for the next ones.
    #[inline]
    pub fn colliders(&mut self) -> (colliders: Vec<(RingPart, RingPlacement)>)
        ensures
            colliders@ == ring_colliders(old(self).kind(), old(self).spec_vertex_count() as int),
            final(self).height_sign() == old(self).height_sign(),
            final(self).inner_sign() == old(self).inner_sign(),
            final(self).gap_sign() == old(self).gap_sign(),
            final(self).spec_vertex_count() == old(self).spec_vertex_count(),
            final(self).cached(),
    {
        proof {
            use_type_invariant(&*self);
        }
        // Recompute the internal shapes if requested
        let internal = match self.internal {
            Some(internal) => internal,
            None => {
                // Generate an internal collision shape representation based on current parameters
                let internal = Internal::new(self.height, self.inner, self.gap, self.vertex_count);
                self.internal = Some(internal);
                internal
            },
        };
        internal.colliders()
    }
}

/// What up is round a ring. Level with the ring it leads toward the axis
/// in the hole and away from it outside; beyond the band it leads away from
/// the nearest rim, or straight away from the plane over the band itself.
/// Within the band between the rims, where nothing should be, and on the
/// axis, where no direction across the ring exists, it is vertical or zero:
/// a position on the axis never asks for a point of a rim.
pub proof fn lemma_ring_up(radial: Sign, on_axis: bool, beyond: bool, side: Sign)
    ensures
        !on_axis && !beyond && radial == Sign::Minus ==> ring_up_for(radial, on_axis, beyond, side)
            == RingUp::Inward,
        !on_axis && !beyond && radial == Sign::Plus ==> ring_up_for(radial, on_axis, beyond, side)
            == RingUp::Outward,
        !on_axis && beyond && radial == Sign::Minus ==> ring_up_for(radial, on_axis, beyond, side)
            == RingUp::InnerRim(side),
        !on_axis && beyond && radial == Sign::Plus ==> ring_up_for(radial, on_axis, beyond, side)
            == RingUp::OuterRim(side),
        (on_axis || radial == Sign::Zero) ==> (ring_up_for(radial, on_axis, beyond, side) matches RingUp::Vertical(
            up,
        ) && up.x == Sign::Zero && up.z == Sign::Zero && up.length_squared() <= 1 && (up.y == side
            || up.y == Sign::Zero)),
        (beyond || radial == Sign::Zero) && (on_axis || radial == Sign::Zero) ==> ring_up_for(
            radial,
            on_axis,
            beyond,
            side,
        ) == RingUp::Vertical(SignVector3 { x: Sign::Zero, y: side, z: Sign::Zero }),
{
}

/// Which representation a ring gets. Without height, a ring whose inner
/// radius is zero is a torus with its disc filled, and one whose inner
/// radius lies strictly between zero and the outer radius is flat. With
/// height, the first is a tube, as is every ring whose inner radius reaches
/// the outer one, and the second is a bolt.
pub proof fn lemma_representation(height: Sign, inner: Sign, gap: Sign)
    ensures
        height == Sign::Zero && inner == Sign::Zero ==> kind_for(height, inner, gap) == (
            RingKind::Torus { fill: true }
        ),
        height == Sign::Zero && inner == Sign::Plus && gap == Sign::Plus ==> kind_for(
            height,
            inner,
            gap,
        ) == RingKind::Flat,
        height == Sign::Plus && (inner == Sign::Zero || gap != Sign::Plus) ==> kind_for(
            height,
            inner,
            gap,
        ) is Tube,
        height == Sign::Plus && inner == Sign::Plus && gap == Sign::Plus ==> kind_for(
            height,
            inner,
            gap,
        ) == RingKind::Bolt,
        has_fill(kind_for(height, inner, gap)) <==> inner != Sign::Plus,
        has_uprights(kind_for(height, inner, gap)) <==> height == Sign::Plus,
{
}

/// How many colliders each representation has for a rim of `vertex_count`
/// vertices: one capsule per slice for a torus, three primitives per slice
/// for a flat ring, three per slice and an upright capsule per vertex for a
/// tube, six per slice and an upright capsule per vertex for a bolt, and
/// one more for the shape that fills a torus or a tube.
pub proof fn lemma_collider_count(kind: RingKind, vertex_count: int)
    requires
        0 <= vertex_count,
    ensures
        ring_colliders(kind, vertex_count).len() == collider_count(kind, vertex_count),
        collider_count(kind, vertex_count) == (match kind {
            RingKind::Torus { fill } => vertex_count + if fill {
                1int
            } else {
                0int
            },
            RingKind::Flat => 3 * vertex_count,
            RingKind::Tube { fill } => 4 * vertex_count + if fill {
                1int
            } else {
                0int
            },
            RingKind::Bolt => 7 * vertex_count,
        }),
{
}

/// What every collider of a ring is: the shape that fills the ring, at the
/// centre and last of all; or a primitive in a slice of the rim. Of those,
/// the capsules of the rims lie along the edge of their slice, which
/// straddles two vertices, the boxes stand upright in such a slice, and the
/// upright capsules stand at the vertices. What is raised comes twice, at
/// the top and mirrored at the bottom.
pub proof fn lemma_ring_colliders(kind: RingKind, vertex_count: int, index: int)
    requires
        0 <= index < collider_count(kind, vertex_count),
        0 <= vertex_count <= u32::MAX,
    ensures
        match collider_at(kind, vertex_count, index) {
            (part, RingPlacement::Centered) => {
                &&& part == RingPart::Fill
                &&& has_fill(kind)
                &&& index == collider_count(kind, vertex_count) - 1
            },
            (part, RingPlacement::Slice { slice, shifted, pose, mirrored }) => {
                &&& slice < vertex_count
                &&& pose.rotation.is_rotation()
                &&& match part {
                    RingPart::Border | RingPart::Outer | RingPart::Inner => {
                        &&& shifted
                        &&& pose.rotation == along_edge()
                        &&& pose.rotation.column(Axis3D::Y).component(Axis3D::Z) != Sign::Zero
                        &&& pose.origin.raised == has_uprights(kind)
                        &&& (part == RingPart::Inner) == (pose.origin.rim == Rim::Inner)
                        &&& pose.origin.rim != Rim::Middle
                    },
                    RingPart::Center | RingPart::Wall => {
                        &&& shifted
                        &&& pose.rotation == upright()
                        &&& !pose.origin.raised
                    },
                    RingPart::Vertical => {
                        &&& !shifted
                        &&& !mirrored
                        &&& has_uprights(kind)
                        &&& pose.rotation == upright()
                        &&& pose.origin == (Offset { rim: Rim::Outer, raised: false })
                    },
                    RingPart::Fill => false,
                }
                &&& mirrored ==> exists|twin: int|
                    0 <= twin < index && (#[trigger] collider_at(kind, vertex_count, twin)).1 == (
                        RingPlacement::Slice { slice, shifted, pose, mirrored: false }
                    )
            },
        },
{
    let len = slice_len(kind);
    let in_slices = len * vertex_count;
    if index < in_slices {
        let slice = index / len;
        let number = index % len;
        assert(0 <= slice < vertex_count && index == len * slice + number) by {
            vstd::arithmetic::div_mod::lemma_fundamental_div_mod(index, len);
            assert(0 <= slice < vertex_count) by (nonlinear_arith)
                requires
                    index == len * slice + number,
                    0 <= number < len,
                    0 <= index < len * vertex_count,
            ;
        }
        let twin_number: int = match kind {
            RingKind::Tube { .. } => 0,
            RingKind::Bolt => number - 2,
            _ => 0,
        };
        if 0 <= twin_number < len {
            lemma_slice_collider_at(kind, vertex_count, slice, twin_number);
        }
        if kind is Bolt && number == 5 {
            lemma_slice_collider_at(kind, vertex_count, slice, 4);
            assert(collider_at(kind, vertex_count, len * slice + 4).1 == (
                RingPlacement::Slice {
                    slice: slice as u32,
                    shifted: true,
                    pose: Pose {
                        rotation: upright(),
                        origin: Offset { rim: Rim::Middle, raised: false },
                    },
                    mirrored: false,
                }
            ));
        }
    }
}

} // verus!
