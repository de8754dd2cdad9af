use gravity_field::gravity::axis::{Axis2D, Axis3D};
use gravity_field::gravity::build_trs::Pose;
use gravity_field::gravity::field::shaped::cuboid::inner2d::{Internal as Internal2D, Part2, Region2};
use gravity_field::gravity::field::shaped::cuboid::inner3d::{Internal as Internal3D, Part3, Region3};
use gravity_field::gravity::field::shaped::cuboid::{GravityShapedCuboid2D, GravityShapedCuboid3D};
use gravity_field::gravity::field::shaped::MakeColliders;
use gravity_field::gravity::util::util2d::{rot_x, rot_y, SignVector2};
use gravity_field::gravity::util::util3d::{basis_x, basis_y, basis_z, Basis3, SignVector3};
use gravity_field::gravity::util::Sign;

const M: Sign = Sign::Minus;
const O: Sign = Sign::Zero;
const P: Sign = Sign::Plus;

fn v2(x: Sign, y: Sign) -> SignVector2 {
    SignVector2::new(x, y)
}

fn v3(x: Sign, y: Sign, z: Sign) -> SignVector3 {
    SignVector3::new(x, y, z)
}

#[test]
fn up_over_a_face_is_its_outward_normal() {
    let cuboid = GravityShapedCuboid3D::new();
    assert_eq!(cuboid.up_func(v3(P, O, O)), Region3::Face(v3(P, O, O)));
    assert_eq!(cuboid.up_func(v3(M, O, O)), Region3::Face(v3(M, O, O)));
    assert_eq!(cuboid.up_func(v3(O, P, O)), Region3::Face(v3(O, P, O)));
    assert_eq!(cuboid.up_func(v3(O, M, O)), Region3::Face(v3(O, M, O)));
    assert_eq!(cuboid.up_func(v3(O, O, P)), Region3::Face(v3(O, O, P)));
    assert_eq!(cuboid.up_func(v3(O, O, M)), Region3::Face(v3(O, O, M)));
}

#[test]
fn up_over_an_edge_leaves_the_edge() {
    let cuboid = GravityShapedCuboid3D::new();
    assert_eq!(
        cuboid.up_func(v3(P, M, O)),
        Region3::Edge { anchor: v3(P, M, O), along: Axis3D::Z }
    );
    assert_eq!(
        cuboid.up_func(v3(M, O, M)),
        Region3::Edge { anchor: v3(M, O, M), along: Axis3D::Y }
    );
    assert_eq!(
        cuboid.up_func(v3(O, P, P)),
        Region3::Edge { anchor: v3(O, P, P), along: Axis3D::X }
    );
}

#[test]
fn up_over_a_corner_leaves_the_corner() {
    let cuboid = GravityShapedCuboid3D::new();
    assert_eq!(cuboid.up_func(v3(P, P, P)), Region3::Corner(v3(P, P, P)));
    assert_eq!(cuboid.up_func(v3(M, P, M)), Region3::Corner(v3(M, P, M)));
}

#[test]
fn up_inside_of_the_box() {
    assert_eq!(GravityShapedCuboid3D::new().up_func(v3(O, O, O)), Region3::Inside);
    assert_eq!(GravityShapedCuboid2D::new().up_func(v2(O, O)), Region2::Inside);
}

#[test]
fn every_excess_has_its_region() {
    let cuboid = GravityShapedCuboid3D::new();
    let mut faces = 0;
    let mut edges = 0;
    let mut corners = 0;
    let mut inside = 0;
    for x in [M, O, P] {
        for y in [M, O, P] {
            for z in [M, O, P] {
                match cuboid.up_func(v3(x, y, z)) {
                    Region3::Inside => inside += 1,
                    Region3::Face(normal) => {
                        assert_eq!(normal, v3(x, y, z));
                        assert_eq!(normal.weight(), 1);
                        faces += 1;
                    }
                    Region3::Edge { anchor, along } => {
                        assert_eq!(anchor, v3(x, y, z));
                        assert_eq!(anchor.get(along), O);
                        assert_eq!(anchor.weight(), 2);
                        edges += 1;
                    }
                    Region3::Corner(corner) => {
                        assert_eq!(corner, v3(x, y, z));
                        corners += 1;
                    }
                }
            }
        }
    }
    assert_eq!((inside, faces, edges, corners), (1, 6, 12, 8));
}

#[test]
fn up_round_a_rectangle() {
    let cuboid = GravityShapedCuboid2D::new();
    assert_eq!(cuboid.up_func(v2(P, O)), Region2::Face(v2(P, O)));
    assert_eq!(cuboid.up_func(v2(M, O)), Region2::Face(v2(M, O)));
    assert_eq!(cuboid.up_func(v2(O, P)), Region2::Face(v2(O, P)));
    assert_eq!(cuboid.up_func(v2(O, M)), Region2::Face(v2(O, M)));
    assert_eq!(cuboid.up_func(v2(P, M)), Region2::Corner(v2(P, M)));
    assert_eq!(cuboid.up_func(v2(M, M)), Region2::Corner(v2(M, M)));
}

#[test]
fn filled_box_has_thirteen_colliders() {
    let colliders = Internal3D::new(false).colliders();
    assert_eq!(colliders.len(), 13);
    assert_eq!(
        colliders[0],
        (Part3::Center, Pose { rotation: Basis3::identity(), origin: v3(O, O, O) })
    );
    let expected = [
        (Axis3D::X, basis_x(), v3(O, P, P)),
        (Axis3D::X, basis_x(), v3(O, P, M)),
        (Axis3D::X, basis_x(), v3(O, M, M)),
        (Axis3D::X, basis_x(), v3(O, M, P)),
        (Axis3D::Y, basis_y(), v3(P, O, P)),
        (Axis3D::Y, basis_y(), v3(M, O, P)),
        (Axis3D::Y, basis_y(), v3(M, O, M)),
        (Axis3D::Y, basis_y(), v3(P, O, M)),
        (Axis3D::Z, basis_z(), v3(P, P, O)),
        (Axis3D::Z, basis_z(), v3(M, P, O)),
        (Axis3D::Z, basis_z(), v3(M, M, O)),
        (Axis3D::Z, basis_z(), v3(P, M, O)),
    ];
    for (k, (axis, rotation, origin)) in expected.into_iter().enumerate() {
        assert_eq!(colliders[k + 1], (Part3::Edge(axis), Pose { rotation, origin }));
    }
}

#[test]
fn hollow_box_has_twelve_colliders() {
    let colliders = Internal3D::new(true).colliders();
    assert_eq!(colliders.len(), 12);
    assert!(colliders.iter().all(|(part, _)| *part != Part3::Center));
    assert_eq!(
        colliders[0],
        (Part3::Edge(Axis3D::X), Pose { rotation: basis_x(), origin: v3(O, P, P) })
    );
    assert_eq!(
        colliders[11],
        (Part3::Edge(Axis3D::Z), Pose { rotation: basis_z(), origin: v3(P, M, O) })
    );
}

#[test]
fn each_edge_of_the_box_has_one_capsule() {
    let colliders = Internal3D::new(true).colliders();
    for x in [M, O, P] {
        for y in [M, O, P] {
            for z in [M, O, P] {
                let anchor = v3(x, y, z);
                let count = colliders.iter().filter(|(_, pose)| pose.origin == anchor).count();
                assert_eq!(count, if anchor.weight() == 2 { 1 } else { 0 });
            }
        }
    }
    for (part, pose) in colliders {
        match part {
            Part3::Edge(axis) => {
                assert_eq!(pose.origin.get(axis), O);
                assert_ne!(pose.rotation.col(Axis3D::Y).get(axis), O);
            }
            Part3::Center => panic!("a hollow box has no center"),
        }
    }
}

#[test]
fn filled_rectangle_has_five_colliders() {
    let colliders = Internal2D::new(false).colliders();
    assert_eq!(
        colliders,
        vec![
            (Part2::Center, Pose { rotation: rot_y(), origin: v2(O, O) }),
            (Part2::Edge(Axis2D::X), Pose { rotation: rot_x(), origin: v2(O, P) }),
            (Part2::Edge(Axis2D::X), Pose { rotation: rot_x(), origin: v2(O, M) }),
            (Part2::Edge(Axis2D::Y), Pose { rotation: rot_y(), origin: v2(P, O) }),
            (Part2::Edge(Axis2D::Y), Pose { rotation: rot_y(), origin: v2(M, O) }),
        ]
    );
}

#[test]
fn hollow_rectangle_has_four_colliders() {
    let colliders = Internal2D::new(true).colliders();
    assert_eq!(colliders.len(), 4);
    assert_eq!(
        colliders[0],
        (Part2::Edge(Axis2D::X), Pose { rotation: rot_x(), origin: v2(O, P) })
    );
    assert_eq!(
        colliders[3],
        (Part2::Edge(Axis2D::Y), Pose { rotation: rot_y(), origin: v2(M, O) })
    );
}

#[test]
fn cuboid_colliders_follow_the_parameters() {
    let mut cuboid = GravityShapedCuboid3D::new();
    assert!(!cuboid.is_hollow());
    assert_eq!(cuboid.colliders().len(), 13);
    assert_eq!(cuboid.colliders().len(), 13);
    cuboid.set_hollow(true);
    assert!(cuboid.is_hollow());
    assert_eq!(cuboid.colliders().len(), 12);
    cuboid.set_edge_radius();
    cuboid.set_box_size();
    assert_eq!(cuboid.colliders(), Internal3D::new(true).colliders());
    cuboid.set_hollow(false);
    assert_eq!(cuboid.colliders(), Internal3D::new(false).colliders());

    let mut cuboid = GravityShapedCuboid2D::new();
    assert!(!cuboid.is_hollow());
    assert_eq!(cuboid.colliders().len(), 5);
    cuboid.set_hollow(true);
    assert_eq!(cuboid.colliders().len(), 4);
    assert_eq!(cuboid.colliders().len(), 4);
    cuboid.set_box_size();
    cuboid.set_edge_radius();
    assert_eq!(cuboid.colliders(), Internal2D::new(true).colliders());
    cuboid.set_hollow(false);
    assert_eq!(cuboid.colliders(), Internal2D::new(false).colliders());
}
