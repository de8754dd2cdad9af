use gravity_field::gravity::field::shaped::curve::{
    Capsule, GravityShapedCurve, Internal, Segment,
};
use gravity_field::gravity::field::shaped::MakeColliders;

#[test]
fn one_capsule_per_pair_of_samples() {
    let list = Internal::new(5).colliders();
    assert_eq!(
        list,
        vec![
            (Capsule, Segment { from: 0, to: 1 }),
            (Capsule, Segment { from: 1, to: 2 }),
            (Capsule, Segment { from: 2, to: 3 }),
            (Capsule, Segment { from: 3, to: 4 }),
        ]
    );
}

#[test]
fn two_samples_make_one_stretch() {
    assert_eq!(Internal::new(2).colliders(), vec![(Capsule, Segment { from: 0, to: 1 })]);
}

#[test]
fn short_curves_have_no_collider() {
    assert_eq!(Internal::new(0).colliders(), vec![]);
    assert_eq!(Internal::new(1).colliders(), vec![]);
}

#[test]
fn no_curve_no_collider() {
    let mut shape = GravityShapedCurve::new();
    assert!(!shape.has_curve());
    assert_eq!(shape.colliders(), vec![]);
    shape.set_radius();
    assert_eq!(shape.colliders(), vec![]);
}

#[test]
fn curve_colliders_follow_the_parameters() {
    let mut shape = GravityShapedCurve::new();
    shape.set_curve(Some(4));
    assert!(shape.has_curve());
    assert_eq!(shape.colliders().len(), 3);
    assert_eq!(shape.colliders(), Internal::new(4).colliders());
    shape.set_radius();
    assert_eq!(shape.colliders().len(), 3);
    shape.set_curve(Some(10));
    assert_eq!(shape.colliders().len(), 9);
    shape.set_curve(None);
    assert!(!shape.has_curve());
    assert_eq!(shape.colliders(), vec![]);
}
