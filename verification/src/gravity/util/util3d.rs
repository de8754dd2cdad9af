//! Sign vectors and axis-aligned frames of space.

use vstd::prelude::*;
use crate::gravity::axis::Axis3D;
use crate::gravity::util::Sign;

verus! {

/// A vector of space whose coordinates are each -1, 0 or 1.
#[derive(Clone, Copy, Debug, PartialEq, Eq, Hash, Structural)]
pub struct SignVector3 {
    pub x: Sign,
    pub y: Sign,
    pub z: Sign,
}

impl SignVector3 {
    /// The coordinate along `axis`.
    pub open spec fn component(self, axis: Axis3D) -> Sign {
        match axis {
            Axis3D::X => self.x,
            Axis3D::Y => self.y,
            Axis3D::Z => self.z,
        }
    }

    /// The coordinates as integers.
    pub open spec fn ints(self) -> (int, int, int) {
        (self.x.value(), self.y.value(), self.z.value())
    }

    /// The dot product with `other`.
    pub open spec fn dot(self, other: SignVector3) -> int {
        self.x.scale(other.x.value()) + self.y.scale(other.y.value()) + self.z.scale(
            other.z.value(),
        )
    }

    /// The squared length, which is the number of non-zero coordinates.
    pub open spec fn length_squared(self) -> int {
        self.dot(self)
    }

    /// The vector flattened along `axis`: with no coordinate along it.
    pub open spec fn without(self, axis: Axis3D) -> SignVector3 {
        match axis {
            Axis3D::X => SignVector3 { x: Sign::Zero, ..self },
            Axis3D::Y => SignVector3 { y: Sign::Zero, ..self },
            Axis3D::Z => SignVector3 { z: Sign::Zero, ..self },
        }
    }

    /// The vector with every coordinate flipped.
    pub open spec fn opposite(self) -> SignVector3 {
        SignVector3 {
            x: self.x.negation(),
            y: self.y.negation(),
            z: self.z.negation(),
        }
    }

    /// The vector with the given coordinates.
    pub fn new(x: Sign, y: Sign, z: Sign) -> (v: SignVector3)
        ensures
            v == (SignVector3 { x, y, z }),
    {
        SignVector3 { x, y, z }
    }

    /// The coordinate along `axis`.
    pub fn get(self, axis: Axis3D) -> (sign: Sign)
        ensures
            sign == self.component(axis),
    {
        match axis {
            Axis3D::X => self.x,
            Axis3D::Y => self.y,
            Axis3D::Z => self.z,
        }
    }

    /// The vector that points the other way.
    pub fn negated(self) -> (v: SignVector3)
        ensures
            v == self.opposite(),
            v.length_squared() == self.length_squared(),
            v.dot(self) == -self.length_squared(),
    {
        SignVector3 { x: self.x.flipped(), y: self.y.flipped(), z: self.z.flipped() }
    }

    /// The number of non-zero coordinates.
    pub fn weight(self) -> (n: u8)
        ensures
            n == self.length_squared(),
    {
        let mut n: u8 = 0;
        if !self.x.is_zero() {
            n = n + 1;
        }
        if !self.y.is_zero() {
            n = n + 1;
        }
        if !self.z.is_zero() {
            n = n + 1;
        }
        n
    }
}

/// Flatten a vector along the X-axis
#[inline]
pub fn flatten_x(v: &SignVector3) -> (flat: SignVector3)
    ensures
        flat == v.without(Axis3D::X),
        flat == (SignVector3 { x: Sign::Zero, y: v.y, z: v.z }),
{
    SignVector3 { x: Sign::Zero, y: v.y, z: v.z }
}

/// Flatten a vector along the Y-axis
#[inline]
pub fn flatten_y(v: &SignVector3) -> (flat: SignVector3)
    ensures
        flat == v.without(Axis3D::Y),
        flat == (SignVector3 { x: v.x, y: Sign::Zero, z: v.z }),
{
    SignVector3 { x: v.x, y: Sign::Zero, z: v.z }
}

/// Flatten a vector along the Z-axis
#[inline]
pub fn flatten_z(v: &SignVector3) -> (flat: SignVector3)
    ensures
        flat == v.without(Axis3D::Z),
        flat == (SignVector3 { x: v.x, y: v.y, z: Sign::Zero }),
{
    SignVector3 { x: v.x, y: v.y, z: Sign::Zero }
}

/// The dot product of two sign vectors.
fn dot(a: &SignVector3, b: &SignVector3) -> (product: i8)
    ensures
        product == a.dot(*b),
{
    a.x.times(b.x).unit() + a.y.times(b.y).unit() + a.z.times(b.z).unit()
}

/// Return true if the angle between the two vectors is acute
#[inline]
pub fn is_acute(a: &SignVector3, b: &SignVector3) -> (acute: bool)
    ensures
        acute == (a.dot(*b) > 0),
{
    dot(a, b) > 0
}

/// Return true if the angle between the two vectors is a right angle
#[inline]
pub fn is_orthogonal(a: &SignVector3, b: &SignVector3) -> (orthogonal: bool)
    ensures
        orthogonal == (a.dot(*b) == 0),
{
    dot(a, b) == 0
}

/// Return true if the angle between the two vectors is obtuse
#[inline]
pub fn is_obtuse(a: &SignVector3, b: &SignVector3) -> (obtuse: bool)
    ensures
        obtuse == (a.dot(*b) < 0),
{
    dot(a, b) < 0
}

/// A frame of space whose three axes are sign vectors, stored by rows.
#[derive(Clone, Copy, Debug, PartialEq, Eq, Hash, Structural)]
pub struct Basis3 {
    pub row_x: SignVector3,
    pub row_y: SignVector3,
    pub row_z: SignVector3,
}

impl Basis3 {
    /// The column along `axis`: the image of that axis' unit vector.
    pub open spec fn column(self, axis: Axis3D) -> SignVector3 {
        SignVector3 {
            x: self.row_x.component(axis),
            y: self.row_y.component(axis),
            z: self.row_z.component(axis),
        }
    }

    /// The image of the integer vector `v`.
    pub open spec fn apply(self, v: (int, int, int)) -> (int, int, int) {
        (
            self.row_x.x.scale(v.0) + self.row_x.y.scale(v.1) + self.row_x.z.scale(v.2),
            self.row_y.x.scale(v.0) + self.row_y.y.scale(v.1) + self.row_y.z.scale(v.2),
            self.row_z.x.scale(v.0) + self.row_z.y.scale(v.1) + self.row_z.z.scale(v.2),
        )
    }

    /// The integer vector whose image is `v`, for a rotation: the image of
    /// `v` by the frame turned back.
    pub open spec fn apply_inverse(self, v: (int, int, int)) -> (int, int, int) {
        (
            self.row_x.x.scale(v.0) + self.row_y.x.scale(v.1) + self.row_z.x.scale(v.2),
            self.row_x.y.scale(v.0) + self.row_y.y.scale(v.1) + self.row_z.y.scale(v.2),
            self.row_x.z.scale(v.0) + self.row_y.z.scale(v.1) + self.row_z.z.scale(v.2),
        )
    }

    /// The determinant of the frame.
    pub open spec fn determinant(self) -> int {
        let r = self.row_x;
        let s = self.row_y;
        let t = self.row_z;
        r.x.scale(s.y.scale(t.z.value()) - s.z.scale(t.y.value())) - r.y.scale(
            s.x.scale(t.z.value()) - s.z.scale(t.x.value()),
        ) + r.z.scale(s.x.scale(t.y.value()) - s.y.scale(t.x.value()))
    }

    /// Whether the frame is a rotation: unit rows at right angles, with the
    /// orientation kept.
    pub open spec fn is_rotation(self) -> bool {
        &&& self.row_x.length_squared() == 1
        &&& self.row_y.length_squared() == 1
        &&& self.row_z.length_squared() == 1
        &&& self.row_x.dot(self.row_y) == 0
        &&& self.row_y.dot(self.row_z) == 0
        &&& self.row_z.dot(self.row_x) == 0
        &&& self.determinant() == 1
    }

    /// The frame that moves nothing.
    pub open spec fn spec_identity() -> Basis3 {
        Basis3 {
            row_x: SignVector3 { x: Sign::Plus, y: Sign::Zero, z: Sign::Zero },
            row_y: SignVector3 { x: Sign::Zero, y: Sign::Plus, z: Sign::Zero },
            row_z: SignVector3 { x: Sign::Zero, y: Sign::Zero, z: Sign::Plus },
        }
    }

    /// The frame that moves nothing.
    pub fn identity() -> (basis: Basis3)
        ensures
            basis == Basis3::spec_identity(),
    {
        Basis3 {
            row_x: SignVector3 { x: Sign::Plus, y: Sign::Zero, z: Sign::Zero },
            row_y: SignVector3 { x: Sign::Zero, y: Sign::Plus, z: Sign::Zero },
            row_z: SignVector3 { x: Sign::Zero, y: Sign::Zero, z: Sign::Plus },
        }
    }

    /// The column along `axis`.
    pub fn col(self, axis: Axis3D) -> (v: SignVector3)
        ensures
            v == self.column(axis),
    {
        SignVector3 { x: self.row_x.get(axis), y: self.row_y.get(axis), z: self.row_z.get(axis) }
    }
}

/// The sine of `turns` quarter turns.
pub open spec fn quarter_sin(turns: int) -> Sign {
    let r = turns % 4;
    if r == 1 {
        Sign::Plus
    } else if r == 3 {
        Sign::Minus
    } else {
        Sign::Zero
    }
}

/// The cosine of `turns` quarter turns.
pub open spec fn quarter_cos(turns: int) -> Sign {
    let r = turns % 4;
    if r == 0 {
        Sign::Plus
    } else if r == 2 {
        Sign::Minus
    } else {
        Sign::Zero
    }
}

/// The rotation by `turns` quarter turns about `axis`.
pub open spec fn quarter_turns(axis: Axis3D, turns: int) -> Basis3 {
    let sin = quarter_sin(turns);
    let cos = quarter_cos(turns);
    let neg_sin = sin.negation();
    match axis {
        Axis3D::X => Basis3 {
            row_x: SignVector3 { x: Sign::Plus, y: Sign::Zero, z: Sign::Zero },
            row_y: SignVector3 { x: Sign::Zero, y: cos, z: neg_sin },
            row_z: SignVector3 { x: Sign::Zero, y: sin, z: cos },
        },
        Axis3D::Y => Basis3 {
            row_x: SignVector3 { x: cos, y: Sign::Zero, z: sin },
            row_y: SignVector3 { x: Sign::Zero, y: Sign::Plus, z: Sign::Zero },
            row_z: SignVector3 { x: neg_sin, y: Sign::Zero, z: cos },
        },
        Axis3D::Z => Basis3 {
            row_x: SignVector3 { x: cos, y: neg_sin, z: Sign::Zero },
            row_y: SignVector3 { x: sin, y: cos, z: Sign::Zero },
            row_z: SignVector3 { x: Sign::Zero, y: Sign::Zero, z: Sign::Plus },
        },
    }
}

/// Build an axis aligned basis from scratch: the rotation by `rot` quarter
/// turns about `axis`. Any number of turns is taken, negative ones too.
pub fn axis_aligned_basis(axis: Axis3D, rot: i8) -> (basis: Basis3)
    ensures
        basis == quarter_turns(axis, rot as int),
        basis.is_rotation(),
{
    // Since the basis is axis-aligned, sin and cos are either -1, 0 or 1.
    let turns: i8 = if rot >= 0 {
        rot % 4
    } else {
        (rot % 4 + 4) % 4
    };
    let (sin, cos) = if turns == 0 {
        (Sign::Zero, Sign::Plus)
    } else if turns == 1 {
        (Sign::Plus, Sign::Zero)
    } else if turns == 2 {
        (Sign::Zero, Sign::Minus)
    } else {
        (Sign::Minus, Sign::Zero)
    };
    let neg_sin = sin.flipped();

    // Select the euler angle
    match axis {
        Axis3D::X => Basis3 {
            row_x: SignVector3 { x: Sign::Plus, y: Sign::Zero, z: Sign::Zero },
            row_y: SignVector3 { x: Sign::Zero, y: cos, z: neg_sin },
            row_z: SignVector3 { x: Sign::Zero, y: sin, z: cos },
        },
        Axis3D::Y => Basis3 {
            row_x: SignVector3 { x: cos, y: Sign::Zero, z: sin },
            row_y: SignVector3 { x: Sign::Zero, y: Sign::Plus, z: Sign::Zero },
            row_z: SignVector3 { x: neg_sin, y: Sign::Zero, z: cos },
        },
        Axis3D::Z => Basis3 {
            row_x: SignVector3 { x: cos, y: neg_sin, z: Sign::Zero },
            row_y: SignVector3 { x: sin, y: cos, z: Sign::Zero },
            row_z: SignVector3 { x: Sign::Zero, y: Sign::Zero, z: Sign::Plus },
        },
    }
}

/// Orientation of a capsule that lies along the X axis.
pub fn basis_x() -> (basis: Basis3)
    ensures
        basis == quarter_turns(Axis3D::Z, 1),
        basis.is_rotation(),
        basis.column(Axis3D::Y).component(Axis3D::X) != Sign::Zero,
{
    axis_aligned_basis(Axis3D::Z, 1)
}

/// Orientation of a capsule that lies along the Y axis.
pub fn basis_y() -> (basis: Basis3)
    ensures
        basis == Basis3::spec_identity(),
        basis.is_rotation(),
        basis.column(Axis3D::Y).component(Axis3D::Y) != Sign::Zero,
{
    Basis3::identity()
}

/// Orientation of a capsule that lies along the Z axis.
pub fn basis_z() -> (basis: Basis3)
    ensures
        basis == quarter_turns(Axis3D::X, 1),
        basis.is_rotation(),
        basis.column(Axis3D::Y).component(Axis3D::Z) != Sign::Zero,
{
    axis_aligned_basis(Axis3D::X, 1)
}

/// The frame that lays a primitive's long axis, its Y axis, along `axis`.
pub open spec fn spec_basis_along(axis: Axis3D) -> Basis3 {
    match axis {
        Axis3D::X => quarter_turns(Axis3D::Z, 1),
        Axis3D::Y => Basis3::spec_identity(),
        Axis3D::Z => quarter_turns(Axis3D::X, 1),
    }
}

/// Turning a vector by a rotation and back leaves it where it was.
pub proof fn lemma_rotation_inverse(frame: Basis3, v: (int, int, int))
    requires
        frame.is_rotation(),
    ensures
        frame.apply(frame.apply_inverse(v)) == v,
        frame.apply_inverse(frame.apply(v)) == v,
{
}

/// Every number of quarter turns about an axis is a rotation that leaves the
/// axis where it is.
pub proof fn lemma_quarter_turns_rotation(axis: Axis3D, turns: int)
    ensures
        quarter_turns(axis, turns).is_rotation(),
        quarter_turns(axis, turns).apply(axis.direction().ints()) == axis.direction().ints(),
{
}

/// Four quarter turns are a full turn: the frame depends on the number of
/// turns modulo 4 only, and no turn at all is the identity.
pub proof fn lemma_quarter_turns_periodic(axis: Axis3D, turns: int)
    ensures
        quarter_turns(axis, turns + 4) == quarter_turns(axis, turns),
        quarter_turns(axis, turns) == quarter_turns(axis, turns % 4),
        quarter_turns(axis, 0) == Basis3::spec_identity(),
{
}

/// Turns about one axis add up: turning by `b` and then by `a` quarter turns
/// moves every vector as turning by `a + b` does.
pub proof fn lemma_quarter_turns_compose(axis: Axis3D, a: int, b: int, v: (int, int, int))
    ensures
        quarter_turns(axis, a).apply(quarter_turns(axis, b).apply(v)) == quarter_turns(
            axis,
            a + b,
        ).apply(v),
{
    let ra = a % 4;
    let rb = b % 4;
    assert((a + b) % 4 == (ra + rb) % 4);
}

} // verus!
