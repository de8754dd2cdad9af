use gravity_field::gravity::axis::{Axis2D, Axis3D};
use gravity_field::gravity::field::axial3d::GravityAxial3D;
use gravity_field::gravity::field::center::{GravityCenter2D, GravityCenter3D};
use gravity_field::gravity::field::conic3d::GravityConic3D;
use gravity_field::gravity::field::flat::{GravityFlat2D, GravityFlat3D};
use gravity_field::gravity::field::shaped::{GravityShaped2D, GravityShaped3D};
use gravity_field::gravity::util::util2d::SignVector2;
use gravity_field::gravity::util::util3d::SignVector3;
use gravity_field::gravity::util::Sign;
use gravity_field::gravity::{Field, Level};

const M: Sign = Sign::Minus;
const O: Sign = Sign::Zero;
const P: Sign = Sign::Plus;

#[test]
fn flat_field_defaults() {
    let flat = GravityFlat3D::new();
    assert_eq!(flat.level(), 0);
    assert_eq!(flat.axis, Axis3D::Y);
    assert!(!flat.inverted);
    let flat = GravityFlat2D::new();
    assert_eq!(flat.level(), 0);
    assert_eq!(flat.axis, Axis2D::Y);
    assert!(!flat.inverted);
}

#[test]
fn flat_up_is_the_axis_everywhere() {
    for (axis, up) in [
        (Axis3D::X, SignVector3::new(P, O, O)),
        (Axis3D::Y, SignVector3::new(O, P, O)),
        (Axis3D::Z, SignVector3::new(O, O, M)),
    ] {
        let flat = GravityFlat3D { level: 3, axis, inverted: false };
        assert_eq!(flat.local_up(&(0.0f32, 0.0f32, 0.0f32)), up);
        assert_eq!(flat.local_up(&(12.5f32, -3.0f32, 1e20f32)), up);
        assert_eq!(flat.local_up(&"anywhere"), up);
        assert_eq!(up.weight(), 1);
        assert_eq!(flat.level(), 3);
    }
}

#[test]
fn flat_up_inverted_is_the_opposite() {
    for axis in [Axis3D::X, Axis3D::Y, Axis3D::Z] {
        let up = GravityFlat3D { level: 0, axis, inverted: false }.local_up(&());
        let down = GravityFlat3D { level: 0, axis, inverted: true }.local_up(&());
        assert_eq!(down, up.negated());
        assert_eq!(down.weight(), 1);
    }
    assert_eq!(
        GravityFlat3D { level: 0, axis: Axis3D::Z, inverted: true }.local_up(&()),
        SignVector3::new(O, O, P)
    );
}

#[test]
fn flat_up_in_the_plane() {
    let right = GravityFlat2D { level: -2, axis: Axis2D::X, inverted: false };
    assert_eq!(right.local_up(&(1.0f32, 2.0f32)), SignVector2::new(P, O));
    assert_eq!(right.level(), -2);
    let up = GravityFlat2D { level: 0, axis: Axis2D::Y, inverted: false };
    assert_eq!(up.local_up(&(1.0f32, 2.0f32)), SignVector2::new(O, M));
    let down = GravityFlat2D { level: 0, axis: Axis2D::Y, inverted: true };
    assert_eq!(down.local_up(&(5.0f32, 2.0f32)), SignVector2::new(O, P));
    let left = GravityFlat2D { level: 0, axis: Axis2D::X, inverted: true };
    assert_eq!(left.local_up(&()), SignVector2::new(M, O));
}

#[test]
fn shaped_field_has_no_up_of_its_own() {
    let mut shaped = GravityShaped3D::new();
    assert_eq!(shaped.level(), 0);
    assert!(!shaped.build_collider);
    assert_eq!(shaped.local_up(&()), SignVector3::new(O, O, O));
    shaped.inverted = true;
    assert_eq!(shaped.local_up(&(1.0f64, 2.0f64)), SignVector3::new(O, O, O));
    shaped.set_build_collider(true);
    assert!(shaped.build_collider);
    assert!(shaped.inverted);

    let mut shaped = GravityShaped2D::new();
    assert_eq!(shaped.level(), 0);
    assert_eq!(shaped.local_up(&()), SignVector2::new(O, O));
    shaped.inverted = true;
    shaped.level = 9;
    assert_eq!(shaped.local_up(&()), SignVector2::new(O, O));
    shaped.set_build_collider(true);
    assert!(shaped.build_collider);
    assert_eq!(shaped.level(), 9);
}

struct Constant {
    level: Level,
    up: i64,
}

impl Field<i64> for Constant {
    fn level(&self) -> Level {
        self.level
    }

    fn local_up(&self, _position: &i64) -> i64 {
        self.up
    }

    fn global_up(&self, position: &i64) -> i64 {
        -self.local_up(position)
    }
}

#[test]
fn field_trait_can_be_implemented() {
    let field = Constant { level: 4, up: 1 };
    let as_field: &dyn Field<i64> = &field;
    assert_eq!(as_field.level(), 4);
    assert_eq!(as_field.local_up(&10), 1);
    assert_eq!(as_field.global_up(&10), -1);
}

#[test]
fn center_up_is_the_position_or_its_opposite() {
    let center = GravityCenter3D::new();
    assert_eq!(center.level(), 0);
    assert!(!center.inverted);
    assert_eq!(center.local_up(), SignVector3::new(P, P, P));
    let center = GravityCenter3D { level: 7, inverted: true };
    assert_eq!(center.level(), 7);
    assert_eq!(center.local_up(), SignVector3::new(M, M, M));

    let center = GravityCenter2D::new();
    assert_eq!(center.level(), 0);
    assert_eq!(center.local_up(), SignVector2::new(P, P));
    let center = GravityCenter2D { level: -1, inverted: true };
    assert_eq!(center.level(), -1);
    assert_eq!(center.local_up(), SignVector2::new(M, M));
}

#[test]
fn axial_up_leaves_the_axis_out() {
    let axial = GravityAxial3D::new();
    assert_eq!(axial.level(), 0);
    assert_eq!(axial.axis, Axis3D::Y);
    assert_eq!(axial.local_up(), SignVector3::new(P, O, P));
    for (axis, factors) in [
        (Axis3D::X, SignVector3::new(O, P, P)),
        (Axis3D::Y, SignVector3::new(P, O, P)),
        (Axis3D::Z, SignVector3::new(P, P, O)),
    ] {
        let axial = GravityAxial3D { level: 2, axis, inverted: false };
        assert_eq!(axial.local_up(), factors);
        assert_eq!(axial.local_up().get(axis), O);
        let inverted = GravityAxial3D { level: 2, axis, inverted: true };
        assert_eq!(inverted.local_up(), factors.negated());
        assert_eq!(inverted.level(), 2);
    }
}

#[test]
fn conic_defaults() {
    let conic = GravityConic3D::new();
    assert_eq!(conic.level(), 0);
    assert_eq!(conic.axis, Axis3D::Y);
    assert!(!conic.inverted);
    assert_eq!(conic.local_up(P), SignVector3::new(P, O, P));
}

#[test]
fn conic_up_has_no_part_along_the_axis() {
    // axis Y and a height above zero: of the position (3, 5, 4) the
    // direction keeps (3, 0, 4), which is (0.6, 0, 0.8) at unit length
    let conic = GravityConic3D { level: 1, axis: Axis3D::Y, inverted: false };
    let factors = conic.local_up(P);
    assert_eq!(factors, SignVector3::new(P, O, P));
    let position = [3.0f64, 5.0, 4.0];
    let kept = [
        position[0] * f64::from(factors.x.unit()),
        position[1] * f64::from(factors.y.unit()),
        position[2] * f64::from(factors.z.unit()),
    ];
    assert_eq!(kept, [3.0, 0.0, 4.0]);
    let length = (kept[0] * kept[0] + kept[1] * kept[1] + kept[2] * kept[2]).sqrt();
    assert_eq!(length, 5.0);
    assert_eq!([kept[0] / length, kept[1] / length, kept[2] / length], [0.6, 0.0, 0.8]);
    assert_eq!(conic.level(), 1);
}

#[test]
fn conic_up_with_height_is_axial_up() {
    for axis in [Axis3D::X, Axis3D::Y, Axis3D::Z] {
        for inverted in [false, true] {
            let conic = GravityConic3D { level: 0, axis, inverted };
            let axial = GravityAxial3D { level: 0, axis, inverted };
            assert_eq!(conic.local_up(P), axial.local_up());
            assert_eq!(conic.local_up(P).get(axis), O);
            assert_eq!(conic.local_up(P).weight(), 2);
        }
    }
}

#[test]
fn conic_up_without_height_is_zero() {
    for axis in [Axis3D::X, Axis3D::Y, Axis3D::Z] {
        for inverted in [false, true] {
            let conic = GravityConic3D { level: 0, axis, inverted };
            assert_eq!(conic.local_up(O), SignVector3::new(O, O, O));
        }
    }
}

#[test]
fn conic_up_with_height_below_zero_is_the_opposite() {
    for axis in [Axis3D::X, Axis3D::Y, Axis3D::Z] {
        for inverted in [false, true] {
            let conic = GravityConic3D { level: 0, axis, inverted };
            assert_eq!(conic.local_up(M), conic.local_up(P).negated());
        }
    }
    let conic = GravityConic3D { level: 0, axis: Axis3D::X, inverted: true };
    assert_eq!(conic.local_up(P), SignVector3::new(O, M, M));
    assert_eq!(conic.local_up(M), SignVector3::new(O, P, P));
}
