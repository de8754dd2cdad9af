use gravity_field::gravity::build_trs::Pose;
use gravity_field::gravity::field::shaped::ring3d::{
    half_steps, make_convex, GravityShapeRing3D, Internal, Offset, Rim, RingKind, RingPart,
    RingPlacement, RingUp,
};
use gravity_field::gravity::field::shaped::MakeColliders;
use gravity_field::gravity::util::util3d::{basis_y, basis_z, Basis3, SignVector3};
use gravity_field::gravity::util::Sign;

const M: Sign = Sign::Minus;
const O: Sign = Sign::Zero;
const P: Sign = Sign::Plus;

fn slice(
    part: RingPart,
    slice: u32,
    rotation: Basis3,
    rim: Rim,
    raised: bool,
    mirrored: bool,
) -> (RingPart, RingPlacement) {
    (
        part,
        RingPlacement::Slice {
            slice,
            shifted: true,
            pose: Pose { rotation, origin: Offset { rim, raised } },
            mirrored,
        },
    )
}

fn vertical(slice: u32) -> (RingPart, RingPlacement) {
    (
        RingPart::Vertical,
        RingPlacement::Slice {
            slice,
            shifted: false,
            pose: Pose { rotation: basis_y(), origin: Offset { rim: Rim::Outer, raised: false } },
            mirrored: false,
        },
    )
}

#[test]
fn disc_without_height_is_a_filled_torus() {
    // inner radius zero, no height
    assert_eq!(Internal::new(O, O, P, 24).kind(), RingKind::Torus { fill: true });
}

#[test]
fn thin_ring_without_height_is_a_hollow_torus() {
    // inner radius equal to the outer radius, no height
    assert_eq!(Internal::new(O, P, O, 24).kind(), RingKind::Torus { fill: false });
}

#[test]
fn wide_ring_without_height_is_flat() {
    // inner radius between zero and the outer radius, no height
    assert_eq!(Internal::new(O, P, P, 24).kind(), RingKind::Flat);
}

#[test]
fn disc_with_height_is_a_filled_tube() {
    assert_eq!(Internal::new(P, O, P, 24).kind(), RingKind::Tube { fill: true });
}

#[test]
fn thin_ring_with_height_is_a_hollow_tube() {
    assert_eq!(Internal::new(P, P, O, 24).kind(), RingKind::Tube { fill: false });
}

#[test]
fn wide_ring_with_height_is_a_bolt() {
    assert_eq!(Internal::new(P, P, P, 24).kind(), RingKind::Bolt);
}

#[test]
fn negative_parameters_count_as_none() {
    // a height below zero is no height, an inner radius below zero no hole
    assert_eq!(Internal::new(M, O, P, 8).kind(), RingKind::Torus { fill: true });
    assert_eq!(Internal::new(M, P, P, 8).kind(), RingKind::Flat);
    assert_eq!(Internal::new(P, M, P, 8).kind(), RingKind::Tube { fill: true });
    assert_eq!(Internal::new(O, M, P, 8).kind(), RingKind::Torus { fill: true });
    // a filled disc without any radius is thin and filled at once
    assert_eq!(Internal::new(O, O, O, 8).kind(), RingKind::Torus { fill: true });
    assert_eq!(Internal::new(P, O, O, 8).kind(), RingKind::Tube { fill: true });
}

#[test]
fn collider_counts_for_24_vertices() {
    assert_eq!(Internal::new_torus(24, true).len(), 25);
    assert_eq!(Internal::new_torus(24, false).len(), 24);
    assert_eq!(Internal::new_flat(24).len(), 72);
    assert_eq!(Internal::new_tube(24, true).len(), 97);
    assert_eq!(Internal::new_tube(24, false).len(), 96);
    assert_eq!(Internal::new_bolt(24).len(), 168);
    for internal in [
        Internal::new_torus(24, true),
        Internal::new_torus(24, false),
        Internal::new_flat(24),
        Internal::new_tube(24, true),
        Internal::new_tube(24, false),
        Internal::new_bolt(24),
    ] {
        assert_eq!(internal.colliders().len() as u64, internal.len());
    }
}

#[test]
fn collider_counts_at_the_limits() {
    assert_eq!(Internal::new_bolt(u32::MAX).len(), 7 * (u32::MAX as u64));
    assert_eq!(Internal::new_tube(u32::MAX, true).len(), 4 * (u32::MAX as u64) + 1);
    assert_eq!(Internal::new_torus(0, true).len(), 1);
    assert_eq!(Internal::new_torus(0, true).colliders(), vec![(RingPart::Fill, RingPlacement::Centered)]);
    assert_eq!(Internal::new_bolt(0).colliders(), vec![]);
}

#[test]
fn torus_colliders() {
    let colliders = Internal::new_torus(3, true).colliders();
    assert_eq!(
        colliders,
        vec![
            slice(RingPart::Border, 0, basis_z(), Rim::Outer, false, false),
            slice(RingPart::Border, 1, basis_z(), Rim::Outer, false, false),
            slice(RingPart::Border, 2, basis_z(), Rim::Outer, false, false),
            (RingPart::Fill, RingPlacement::Centered),
        ]
    );
    assert_eq!(Internal::new_torus(3, false).colliders(), colliders[..3].to_vec());
}

#[test]
fn flat_colliders() {
    let colliders = Internal::new_flat(2).colliders();
    assert_eq!(
        colliders,
        vec![
            slice(RingPart::Outer, 0, basis_z(), Rim::Outer, false, false),
            slice(RingPart::Inner, 0, basis_z(), Rim::Inner, false, false),
            slice(RingPart::Center, 0, basis_y(), Rim::Middle, false, false),
            slice(RingPart::Outer, 1, basis_z(), Rim::Outer, false, false),
            slice(RingPart::Inner, 1, basis_z(), Rim::Inner, false, false),
            slice(RingPart::Center, 1, basis_y(), Rim::Middle, false, false),
        ]
    );
}

#[test]
fn tube_colliders() {
    let colliders = Internal::new_tube(2, true).colliders();
    assert_eq!(
        colliders,
        vec![
            slice(RingPart::Border, 0, basis_z(), Rim::Outer, true, false),
            slice(RingPart::Border, 0, basis_z(), Rim::Outer, true, true),
            slice(RingPart::Center, 0, basis_y(), Rim::Outer, false, false),
            slice(RingPart::Border, 1, basis_z(), Rim::Outer, true, false),
            slice(RingPart::Border, 1, basis_z(), Rim::Outer, true, true),
            slice(RingPart::Center, 1, basis_y(), Rim::Outer, false, false),
            vertical(0),
            vertical(1),
            (RingPart::Fill, RingPlacement::Centered),
        ]
    );
    assert_eq!(Internal::new_tube(2, false).colliders(), colliders[..8].to_vec());
}

#[test]
fn bolt_colliders() {
    let colliders = Internal::new_bolt(2).colliders();
    assert_eq!(
        colliders,
        vec![
            slice(RingPart::Outer, 0, basis_z(), Rim::Outer, true, false),
            slice(RingPart::Inner, 0, basis_z(), Rim::Inner, true, false),
            slice(RingPart::Outer, 0, basis_z(), Rim::Outer, true, true),
            slice(RingPart::Inner, 0, basis_z(), Rim::Inner, true, true),
            slice(RingPart::Center, 0, basis_y(), Rim::Middle, false, false),
            slice(RingPart::Wall, 0, basis_y(), Rim::Middle, false, true),
            slice(RingPart::Outer, 1, basis_z(), Rim::Outer, true, false),
            slice(RingPart::Inner, 1, basis_z(), Rim::Inner, true, false),
            slice(RingPart::Outer, 1, basis_z(), Rim::Outer, true, true),
            slice(RingPart::Inner, 1, basis_z(), Rim::Inner, true, true),
            slice(RingPart::Center, 1, basis_y(), Rim::Middle, false, false),
            slice(RingPart::Wall, 1, basis_y(), Rim::Middle, false, true),
            vertical(0),
            vertical(1),
        ]
    );
}

#[test]
fn up_round_a_ring() {
    let ring = GravityShapeRing3D::new();
    let up = |radial, beyond, side| ring.up(radial, false, beyond, side);
    let straight = |side| RingUp::Vertical(SignVector3::new(O, side, O));
    // level with the ring
    assert_eq!(up(M, false, P), RingUp::Inward);
    assert_eq!(up(P, false, M), RingUp::Outward);
    assert_eq!(up(O, false, P), straight(P));
    assert_eq!(up(O, false, O), straight(O));
    // over and under it
    assert_eq!(up(O, true, P), straight(P));
    assert_eq!(up(O, true, M), straight(M));
    assert_eq!(up(M, true, P), RingUp::InnerRim(P));
    assert_eq!(up(M, true, M), RingUp::InnerRim(M));
    assert_eq!(up(P, true, P), RingUp::OuterRim(P));
    assert_eq!(up(P, true, M), RingUp::OuterRim(M));
    assert_eq!(up(P, true, O), RingUp::OuterRim(O));
}

#[test]
fn up_on_the_axis_of_a_ring() {
    let ring = GravityShapeRing3D::new();
    let straight = |side| RingUp::Vertical(SignVector3::new(O, side, O));
    // inner radius 1, outer radius 2, height 1, position (0, 2, 0): in the
    // hole, on the axis, above the band
    assert_eq!(ring.up(M, true, true, P), straight(P));
    assert_eq!(ring.up(M, true, true, M), straight(M));
    // on the axis and level with the ring nothing tells a direction
    assert_eq!(ring.up(M, true, false, P), straight(O));
    assert_eq!(ring.up(M, true, false, O), straight(O));
    assert_eq!(ring.up(P, true, false, M), straight(O));
    // unless the axis runs through the band
    assert_eq!(ring.up(O, true, false, P), straight(P));
    assert_eq!(ring.up(O, true, true, M), straight(M));
    assert_eq!(ring.up(P, true, true, P), straight(P));
    for radial in [M, O, P] {
        for beyond in [false, true] {
            for side in [M, O, P] {
                match ring.up(radial, true, beyond, side) {
                    RingUp::Vertical(up) => {
                        assert!(up.weight() <= 1);
                        assert_eq!(up.x, O);
                        assert_eq!(up.z, O);
                    }
                    other => panic!("{:?}", other),
                }
            }
        }
    }
}

#[test]
fn slices_stand_half_a_step_off_the_vertices() {
    assert_eq!(half_steps(0, false), 0);
    assert_eq!(half_steps(0, true), 1);
    assert_eq!(half_steps(5, false), 10);
    assert_eq!(half_steps(5, true), 11);
    assert_eq!(half_steps(u32::MAX, true), 2 * (u32::MAX as u64) + 1);
}

#[test]
fn corners_of_the_filling_shape() {
    assert_eq!(make_convex(0), vec![]);
    assert_eq!(make_convex(3), vec![(0, P), (0, M), (1, P), (1, M), (2, P), (2, M)]);
    assert_eq!(make_convex(24).len(), 48);
}

#[test]
fn ring_defaults() {
    let mut ring = GravityShapeRing3D::new();
    assert_eq!(ring.height(), O);
    assert_eq!(ring.inner_radius(), O);
    assert_eq!(ring.gap(), P);
    assert_eq!(ring.vertex_count(), 24);
    assert_eq!(ring.representation(), RingKind::Torus { fill: true });
    assert_eq!(ring.colliders().len(), 25);
}

#[test]
fn outer_radius_below_inner_lowers_inner() {
    let mut ring = GravityShapeRing3D::new();
    // an inner radius above zero and below the outer one
    assert!(!ring.set_inner_radius(P, P));
    assert_eq!(ring.representation(), RingKind::Flat);
    // a new outer radius above zero and below the inner one
    assert!(ring.set_outer_radius(P, M));
    assert_eq!(ring.gap(), O);
    assert_eq!(ring.inner_radius(), P);
    assert_eq!(ring.representation(), RingKind::Torus { fill: false });
    // an outer radius of zero takes the inner radius down to zero
    assert!(ring.set_outer_radius(O, M));
    assert_eq!(ring.gap(), O);
    assert_eq!(ring.inner_radius(), O);
    assert_eq!(ring.representation(), RingKind::Torus { fill: true });
}

#[test]
fn inner_radius_above_outer_raises_outer() {
    let mut ring = GravityShapeRing3D::new();
    assert!(ring.set_inner_radius(P, M));
    assert_eq!(ring.gap(), O);
    assert_eq!(ring.inner_radius(), P);
    assert_eq!(ring.representation(), RingKind::Torus { fill: false });
    // an outer radius above leaves the inner one alone
    assert!(!ring.set_outer_radius(P, P));
    assert_eq!(ring.gap(), P);
    assert_eq!(ring.inner_radius(), P);
    assert_eq!(ring.representation(), RingKind::Flat);
    // as does one that matches it
    assert!(!ring.set_outer_radius(P, O));
    assert_eq!(ring.gap(), O);
    assert_eq!(ring.inner_radius(), P);
}

#[test]
fn ring_colliders_follow_the_parameters() {
    let mut ring = GravityShapeRing3D::new();
    ring.set_vertex_count(6);
    assert_eq!(ring.vertex_count(), 6);
    assert_eq!(ring.colliders(), Internal::new_torus(6, true).colliders());
    assert_eq!(ring.colliders(), Internal::new_torus(6, true).colliders());
    ring.set_height(P);
    assert_eq!(ring.height(), P);
    assert_eq!(ring.representation(), RingKind::Tube { fill: true });
    assert_eq!(ring.colliders(), Internal::new_tube(6, true).colliders());
    ring.set_inner_radius(P, P);
    assert_eq!(ring.representation(), RingKind::Bolt);
    assert_eq!(ring.colliders().len(), 42);
    ring.set_edge_radius();
    assert_eq!(ring.colliders(), Internal::new_bolt(6).colliders());
    ring.set_height(O);
    assert_eq!(ring.colliders(), Internal::new_flat(6).colliders());
    ring.set_vertex_count(3);
    assert_eq!(ring.colliders().len(), 9);
    ring.set_height(M);
    assert_eq!(ring.colliders().len(), 9);
}

#[test]
fn rim_has_three_vertices_at_least() {
    let mut ring = GravityShapeRing3D::new();
    ring.set_vertex_count(0);
    assert_eq!(ring.vertex_count(), 3);
    assert_eq!(ring.colliders().len(), 4);
    ring.set_vertex_count(2);
    assert_eq!(ring.vertex_count(), 3);
    ring.set_vertex_count(3);
    assert_eq!(ring.vertex_count(), 3);
    ring.set_vertex_count(4);
    assert_eq!(ring.vertex_count(), 4);
    ring.set_vertex_count(u32::MAX);
    assert_eq!(ring.vertex_count(), u32::MAX);
}
