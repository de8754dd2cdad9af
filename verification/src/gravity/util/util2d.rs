//! Sign vectors and axis-aligned frames of the plane.

use vstd::prelude::*;
use crate::gravity::axis::Axis2D;
use crate::gravity::util::Sign;

verus! {

/// A vector of the plane whose coordinates are each -1, 0 or 1.
#[derive(Clone, Copy, Debug, PartialEq, Eq, Hash, Structural)]
pub struct SignVector2 {
    pub x: Sign,
    pub y: Sign,
}

impl SignVector2 {
    /// The coordinate along `axis`.
    pub open spec fn component(self, axis: Axis2D) -> Sign {
        match axis {
            Axis2D::X => self.x,
            Axis2D::Y => self.y,
        }
    }

    /// The dot product with `other`.
    pub open spec fn dot(self, other: SignVector2) -> int {
        self.x.scale(other.x.value()) + self.y.scale(other.y.value())
    }

    /// The squared length, which is the number of non-zero coordinates.
    pub open spec fn length_squared(self) -> int {
        self.dot(self)
    }

    /// The vector flattened along `axis`: with no coordinate along it.
    pub open spec fn without(self, axis: Axis2D) -> SignVector2 {
        match axis {
            Axis2D::X => SignVector2 { x: Sign::Zero, ..self },
            Axis2D::Y => SignVector2 { y: Sign::Zero, ..self },
        }
    }

    /// The vector with every coordinate flipped.
    pub open spec fn opposite(self) -> SignVector2 {
        SignVector2 { x: self.x.negation(), y: self.y.negation() }
    }

    /// The vector with the given coordinates.
    pub fn new(x: Sign, y: Sign) -> (v: SignVector2)
        ensures
            v == (SignVector2 { x, y }),
    {
        SignVector2 { x, y }
    }

    /// The coordinate along `axis`.
    pub fn get(self, axis: Axis2D) -> (sign: Sign)
        ensures
            sign == self.component(axis),
    {
        match axis {
            Axis2D::X => self.x,
            Axis2D::Y => self.y,
        }
    }

    /// The vector that points the other way.
    pub fn negated(self) -> (v: SignVector2)
        ensures
            v == self.opposite(),
            v.length_squared() == self.length_squared(),
            v.dot(self) == -self.length_squared(),
    {
        SignVector2 { x: self.x.flipped(), y: self.y.flipped() }
    }

    /// The number of non-zero coordinates.
    pub fn weight(self) -> (n: u8)
        ensures
            n == self.length_squared(),
    {
        let mut n: u8 = 0;
        if !self.x.is_zero() {
            n = n + 1;
        }
        if !self.y.is_zero() {
            n = n + 1;
        }
        n
    }
}

/// Flatten a vector along the X-axis
#[inline]
pub fn flatten_x(v: &SignVector2) -> (flat: SignVector2)
    ensures
        flat == v.without(Axis2D::X),
        flat == (SignVector2 { x: Sign::Zero, y: v.y }),
{
    SignVector2 { x: Sign::Zero, y: v.y }
}

/// Flatten a vector along the Y-axis
#[inline]
pub fn flatten_y(v: &SignVector2) -> (flat: SignVector2)
    ensures
        flat == v.without(Axis2D::Y),
        flat == (SignVector2 { x: v.x, y: Sign::Zero }),
{
    SignVector2 { x: v.x, y: Sign::Zero }
}

/// The dot product of two sign vectors.
fn dot(a: &SignVector2, b: &SignVector2) -> (product: i8)
    ensures
        product == a.dot(*b),
{
    a.x.times(b.x).unit() + a.y.times(b.y).unit()
}

/// Return true if the angle between the two vectors is acute
#[inline]
pub fn is_acute(a: &SignVector2, b: &SignVector2) -> (acute: bool)
    ensures
        acute == (a.dot(*b) > 0),
{
    dot(a, b) > 0
}

/// Return true if the angle between the two vectors is a right angle
#[inline]
pub fn is_orthogonal(a: &SignVector2, b: &SignVector2) -> (orthogonal: bool)
    ensures
        orthogonal == (a.dot(*b) == 0),
{
    dot(a, b) == 0
}

/// Return true if the angle between the two vectors is obtuse
#[inline]
pub fn is_obtuse(a: &SignVector2, b: &SignVector2) -> (obtuse: bool)
    ensures
        obtuse == (a.dot(*b) < 0),
{
    dot(a, b) < 0
}

/// A frame of the plane whose two axes are sign vectors, stored by columns:
/// `col_a` is the image of the first unit vector and `col_b` the image of the
/// second.
#[derive(Clone, Copy, Debug, PartialEq, Eq, Hash, Structural)]
pub struct Basis2 {
    pub col_a: SignVector2,
    pub col_b: SignVector2,
}

impl Basis2 {
    /// The image of the integer vector `v`.
    pub open spec fn apply(self, v: (int, int)) -> (int, int) {
        (
            self.col_a.x.scale(v.0) + self.col_b.x.scale(v.1),
            self.col_a.y.scale(v.0) + self.col_b.y.scale(v.1),
        )
    }

    /// The integer vector whose image is `v`, for a rotation: the image of
    /// `v` by the frame turned back.
    pub open spec fn apply_inverse(self, v: (int, int)) -> (int, int) {
        (
            self.col_a.x.scale(v.0) + self.col_a.y.scale(v.1),
            self.col_b.x.scale(v.0) + self.col_b.y.scale(v.1),
        )
    }

    /// The determinant of the frame.
    pub open spec fn determinant(self) -> int {
        self.col_a.x.scale(self.col_b.y.value()) - self.col_b.x.scale(self.col_a.y.value())
    }

    /// Whether the frame is a rotation: unit columns at a right angle, with
    /// the orientation kept.
    pub open spec fn is_rotation(self) -> bool {
        &&& self.col_a.length_squared() == 1
        &&& self.col_b.length_squared() == 1
        &&& self.col_a.dot(self.col_b) == 0
        &&& self.determinant() == 1
    }
}

/// Turning a vector by a rotation and back leaves it where it was.
pub proof fn lemma_rotation_inverse(frame: Basis2, v: (int, int))
    requires
        frame.is_rotation(),
    ensures
        frame.apply(frame.apply_inverse(v)) == v,
        frame.apply_inverse(frame.apply(v)) == v,
{
}

/// The frame that lays a primitive's long axis, its second one, along X:
/// a quarter turn.
pub open spec fn spec_rot_x() -> Basis2 {
    Basis2 {
        col_a: SignVector2 { x: Sign::Zero, y: Sign::Plus },
        col_b: SignVector2 { x: Sign::Minus, y: Sign::Zero },
    }
}

/// The frame that leaves a primitive's long axis along Y: the identity.
pub open spec fn spec_rot_y() -> Basis2 {
    Basis2 {
        col_a: SignVector2 { x: Sign::Plus, y: Sign::Zero },
        col_b: SignVector2 { x: Sign::Zero, y: Sign::Plus },
    }
}

/// Orientation of a capsule that lies along the X axis.
pub fn rot_x() -> (basis: Basis2)
    ensures
        basis == spec_rot_x(),
        basis.is_rotation(),
        basis.col_b.component(Axis2D::X).value() != 0,
{
    Basis2 {
        col_a: SignVector2 { x: Sign::Zero, y: Sign::Plus },
        col_b: SignVector2 { x: Sign::Minus, y: Sign::Zero },
    }
}

/// Orientation of a capsule that lies along the Y axis.
pub fn rot_y() -> (basis: Basis2)
    ensures
        basis == spec_rot_y(),
        basis.is_rotation(),
        basis.col_b.component(Axis2D::Y).value() != 0,
{
    Basis2 {
        col_a: SignVector2 { x: Sign::Plus, y: Sign::Zero },
        col_b: SignVector2 { x: Sign::Zero, y: Sign::Plus },
    }
}

} // verus!
