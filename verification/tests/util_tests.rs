use gravity_field::gravity::axis::{Axis2D, Axis3D};
use gravity_field::gravity::build_trs::{Pose, TransformBuilder};
use gravity_field::gravity::util::util2d;
use gravity_field::gravity::util::util2d::{rot_x, rot_y, SignVector2};
use gravity_field::gravity::util::util3d;
use gravity_field::gravity::util::util3d::{
    axis_aligned_basis, basis_x, basis_y, basis_z, Basis3, SignVector3,
};
use gravity_field::gravity::util::Sign;

const M: Sign = Sign::Minus;
const O: Sign = Sign::Zero;
const P: Sign = Sign::Plus;

fn sv3(x: Sign, y: Sign, z: Sign) -> SignVector3 {
    SignVector3::new(x, y, z)
}

#[test]
fn sign_units() {
    assert_eq!(Sign::Minus.unit(), -1);
    assert_eq!(Sign::Zero.unit(), 0);
    assert_eq!(Sign::Plus.unit(), 1);
}

#[test]
fn sign_flipped_and_times() {
    assert_eq!(Sign::Minus.flipped(), Sign::Plus);
    assert_eq!(Sign::Zero.flipped(), Sign::Zero);
    assert_eq!(Sign::Plus.flipped(), Sign::Minus);
    for a in [M, O, P] {
        for b in [M, O, P] {
            assert_eq!(a.times(b).unit(), a.unit() * b.unit());
        }
        assert_eq!(a.is_zero(), a == O);
    }
}

#[test]
fn axis_2d_to_vector() {
    assert_eq!(Axis2D::X.to_vector(), SignVector2::new(P, O));
    assert_eq!(Axis2D::Y.to_vector(), SignVector2::new(O, M));
}

#[test]
fn axis_3d_to_vector() {
    assert_eq!(Axis3D::X.to_vector(), sv3(P, O, O));
    assert_eq!(Axis3D::Y.to_vector(), sv3(O, P, O));
    assert_eq!(Axis3D::Z.to_vector(), sv3(O, O, M));
}

#[test]
fn sign_vector_2d_basics() {
    let v = SignVector2::new(P, M);
    assert_eq!(v.get(Axis2D::X), P);
    assert_eq!(v.get(Axis2D::Y), M);
    assert_eq!(v.negated(), SignVector2::new(M, P));
    assert_eq!(v.weight(), 2);
    assert_eq!(SignVector2::new(O, O).weight(), 0);
    assert_eq!(util2d::flatten_x(&v), SignVector2::new(O, M));
    assert_eq!(util2d::flatten_y(&v), SignVector2::new(P, O));
}

#[test]
fn sign_vector_3d_basics() {
    let v = sv3(P, M, O);
    assert_eq!(v.get(Axis3D::X), P);
    assert_eq!(v.get(Axis3D::Y), M);
    assert_eq!(v.get(Axis3D::Z), O);
    assert_eq!(v.negated(), sv3(M, P, O));
    assert_eq!(v.weight(), 2);
    assert_eq!(sv3(M, M, M).weight(), 3);
    let w = sv3(P, M, P);
    assert_eq!(util3d::flatten_x(&w), sv3(O, M, P));
    assert_eq!(util3d::flatten_y(&w), sv3(P, O, P));
    assert_eq!(util3d::flatten_z(&w), sv3(P, M, O));
}

#[test]
fn angles_between_sign_vectors_2d() {
    let a = SignVector2::new(P, P);
    assert!(util2d::is_acute(&a, &SignVector2::new(P, O)));
    assert!(!util2d::is_acute(&a, &SignVector2::new(P, M)));
    assert!(util2d::is_orthogonal(&a, &SignVector2::new(P, M)));
    assert!(!util2d::is_orthogonal(&a, &a));
    assert!(util2d::is_obtuse(&a, &SignVector2::new(M, O)));
    assert!(!util2d::is_obtuse(&a, &SignVector2::new(O, O)));
}

#[test]
fn angles_between_sign_vectors_3d() {
    let a = sv3(P, P, P);
    assert!(util3d::is_acute(&a, &sv3(P, M, P)));
    assert!(util3d::is_orthogonal(&sv3(P, O, O), &sv3(O, P, M)));
    assert!(util3d::is_obtuse(&a, &sv3(M, M, P)));
    assert!(!util3d::is_acute(&a, &sv3(M, M, P)));
    assert!(!util3d::is_obtuse(&a, &sv3(P, M, O)));
    assert!(util3d::is_orthogonal(&a, &sv3(P, M, O)));
}

#[test]
fn capsule_frames_of_the_plane() {
    let x = rot_x();
    assert_eq!(x.col_a, SignVector2::new(O, P));
    assert_eq!(x.col_b, SignVector2::new(M, O));
    let y = rot_y();
    assert_eq!(y.col_a, SignVector2::new(P, O));
    assert_eq!(y.col_b, SignVector2::new(O, P));
}

#[test]
fn quarter_turn_about_z() {
    let basis = axis_aligned_basis(Axis3D::Z, 1);
    assert_eq!(basis.row_x, sv3(O, M, O));
    assert_eq!(basis.row_y, sv3(P, O, O));
    assert_eq!(basis.row_z, sv3(O, O, P));
    assert_eq!(basis, basis_x());
}

#[test]
fn quarter_turn_about_x() {
    let basis = axis_aligned_basis(Axis3D::X, 1);
    assert_eq!(basis.row_x, sv3(P, O, O));
    assert_eq!(basis.row_y, sv3(O, O, M));
    assert_eq!(basis.row_z, sv3(O, P, O));
    assert_eq!(basis, basis_z());
}

#[test]
fn half_turn_about_y() {
    let basis = axis_aligned_basis(Axis3D::Y, 2);
    assert_eq!(basis.row_x, sv3(M, O, O));
    assert_eq!(basis.row_y, sv3(O, P, O));
    assert_eq!(basis.row_z, sv3(O, O, M));
}

#[test]
fn quarter_turns_wrap_round() {
    for axis in [Axis3D::X, Axis3D::Y, Axis3D::Z] {
        assert_eq!(axis_aligned_basis(axis, 0), Basis3::identity());
        assert_eq!(axis_aligned_basis(axis, 4), Basis3::identity());
        assert_eq!(axis_aligned_basis(axis, -4), Basis3::identity());
        assert_eq!(axis_aligned_basis(axis, 5), axis_aligned_basis(axis, 1));
        assert_eq!(axis_aligned_basis(axis, -1), axis_aligned_basis(axis, 3));
        assert_eq!(axis_aligned_basis(axis, -128), axis_aligned_basis(axis, 0));
        assert_eq!(axis_aligned_basis(axis, 127), axis_aligned_basis(axis, 3));
        assert_eq!(axis_aligned_basis(axis, -127), axis_aligned_basis(axis, 1));
    }
}

#[test]
fn quarter_turn_keeps_its_axis() {
    for rot in -8i8..8 {
        assert_eq!(axis_aligned_basis(Axis3D::X, rot).col(Axis3D::X), sv3(P, O, O));
        assert_eq!(axis_aligned_basis(Axis3D::Y, rot).col(Axis3D::Y), sv3(O, P, O));
        assert_eq!(axis_aligned_basis(Axis3D::Z, rot).col(Axis3D::Z), sv3(O, O, P));
    }
}

#[test]
fn capsule_frames_of_space() {
    assert_eq!(basis_y(), Basis3::identity());
    // the long axis of a capsule is its Y axis
    assert_eq!(basis_x().col(Axis3D::Y), sv3(M, O, O));
    assert_eq!(basis_y().col(Axis3D::Y), sv3(O, P, O));
    assert_eq!(basis_z().col(Axis3D::Y), sv3(O, O, P));
}

#[test]
fn transform_builder_pairs_any_rotation_with_any_position() {
    let builder = TransformBuilder::new([10u8, 20], [1i32, 2, 3]);
    assert_eq!(builder.build(0, 0), Pose { rotation: 10, origin: 1 });
    assert_eq!(builder.build(1, 2), Pose { rotation: 20, origin: 3 });
    assert_eq!(builder.build(0, 1), Pose { rotation: 10, origin: 2 });
}

#[test]
fn transform_builder_of_one_pose_is_that_pose() {
    let builder = TransformBuilder::new([basis_x()], [sv3(P, O, M)]);
    let pose: Pose<Basis3, SignVector3> = Pose::from(builder);
    assert_eq!(pose, Pose { rotation: basis_x(), origin: sv3(P, O, M) });
}

#[test]
fn default_transform_builder_holds_defaults() {
    let builder: TransformBuilder<u8, 2, (i32, bool), 3> = TransformBuilder::default();
    for rot in 0..2 {
        for pos in 0..3 {
            assert_eq!(builder.build(rot, pos), Pose { rotation: 0, origin: (0, false) });
        }
    }
}
