//! Utility functions: signs, the sign vectors and axis-aligned frames built
//! from them, and the positions of a value in a sequence.

use vstd::prelude::*;

pub mod util2d;
pub mod util3d;

verus! {

/// One of the three unit factors -1, 0 and 1.
///
/// A sign is how a scalar comparison enters this crate: the side of an
/// interval a coordinate lies on, or the factor that places a primitive on
/// the positive side, on the negative side or at the centre of an extent.
#[derive(Clone, Copy, Debug, PartialEq, Eq, Hash, Structural)]
pub enum Sign {
    /// The factor -1.
    Minus,
    /// The factor 0.
    Zero,
    /// The factor 1.
    Plus,
}

impl Sign {
    /// The integer this sign stands for.
    pub open spec fn value(self) -> int {
        match self {
            Sign::Minus => -1,
            Sign::Zero => 0,
            Sign::Plus => 1,
        }
    }

    /// The opposite sign.
    pub open spec fn negation(self) -> Sign {
        match self {
            Sign::Minus => Sign::Plus,
            Sign::Zero => Sign::Zero,
            Sign::Plus => Sign::Minus,
        }
    }

    /// The sign of a product of two numbers with these signs.
    pub open spec fn product(self, other: Sign) -> Sign {
        match self {
            Sign::Minus => other.negation(),
            Sign::Zero => Sign::Zero,
            Sign::Plus => other,
        }
    }

    /// The product of this sign and the integer `n`: `-n`, 0 or `n`.
    pub open spec fn scale(self, n: int) -> int {
        match self {
            Sign::Minus => -n,
            Sign::Zero => 0,
            Sign::Plus => n,
        }
    }

    /// This sign as the number -1, 0 or 1.
    pub fn unit(self) -> (unit: i8)
        ensures
            unit == self.value(),
    {
        match self {
            Sign::Minus => -1,
            Sign::Zero => 0,
            Sign::Plus => 1,
        }
    }

    /// The opposite sign.
    pub fn flipped(self) -> (sign: Sign)
        ensures
            sign == self.negation(),
            sign.value() == -self.value(),
    {
        match self {
            Sign::Minus => Sign::Plus,
            Sign::Zero => Sign::Zero,
            Sign::Plus => Sign::Minus,
        }
    }

    /// The sign of a product of two numbers with these signs.
    pub fn times(self, other: Sign) -> (sign: Sign)
        ensures
            sign == self.product(other),
            sign.value() == self.scale(other.value()),
    {
        match (self, other) {
            (Sign::Zero, _) => Sign::Zero,
            (_, Sign::Zero) => Sign::Zero,
            (Sign::Plus, Sign::Plus) => Sign::Plus,
            (Sign::Minus, Sign::Minus) => Sign::Plus,
            _ => Sign::Minus,
        }
    }

    /// Whether this is the factor 0.
    pub fn is_zero(self) -> (zero: bool)
        ensures
            zero == (self.value() == 0),
    {
        match self {
            Sign::Zero => true,
            _ => false,
        }
    }
}

/// The positions at which `target` stands in `items`, in ascending order.
pub open spec fn positions_of<T>(items: Seq<T>, target: T) -> Seq<usize>
    decreases items.len(),
{
    if items.len() == 0 {
        Seq::empty()
    } else {
        let rest = positions_of(items.drop_last(), target);
        if items.last() == target {
            rest.push((items.len() - 1) as usize)
        } else {
            rest
        }
    }
}

/// What `positions_of` holds: positions of `items` at which `target` stands,
/// each of them, in strictly ascending order.
pub proof fn lemma_positions_of<T>(items: Seq<T>, target: T)
    requires
        items.len() <= usize::MAX,
    ensures
        positions_of(items, target).len() <= items.len(),
        forall|k: int|
            0 <= k < positions_of(items, target).len() ==> {
                &&& (#[trigger] positions_of(items, target)[k]) < items.len()
                &&& items[positions_of(items, target)[k] as int] == target
            },
        forall|i: int|
            0 <= i < items.len() && #[trigger] items[i] == target ==> exists|k: int|
                0 <= k < positions_of(items, target).len() && #[trigger] positions_of(
                    items,
                    target,
                )[k] == i,
        forall|a: int, b: int|
            0 <= a < b < positions_of(items, target).len() ==> positions_of(items, target)[a]
                < positions_of(items, target)[b],
    decreases items.len(),
{
    if items.len() > 0 {
        let front = items.drop_last();
        lemma_positions_of(front, target);
        let rest = positions_of(front, target);
        let list = positions_of(items, target);
        assert forall|k: int| 0 <= k < list.len() implies {
            &&& (#[trigger] list[k]) < items.len()
            &&& items[list[k] as int] == target
        } by {
            if k < rest.len() {
                assert(list[k] == rest[k]);
                assert(front[rest[k] as int] == items[rest[k] as int]);
            }
        }
        assert forall|i: int| 0 <= i < items.len() && #[trigger] items[i] == target implies exists|
            k: int,
        | 0 <= k < list.len() && #[trigger] list[k] == i by {
            if i < front.len() {
                assert(front[i] == target);
                let k = choose|k: int| 0 <= k < rest.len() && #[trigger] rest[k] == i;
                assert(list[k] == i);
            } else {
                assert(list[list.len() - 1] == i);
            }
        }
    }
}

/// Where `target` stands nowhere in `items`, it has no position.
pub proof fn lemma_positions_of_absent<T>(items: Seq<T>, target: T)
    requires
        forall|i: int| 0 <= i < items.len() ==> #[trigger] items[i] != target,
    ensures
        positions_of(items, target) == Seq::<usize>::empty(),
    decreases items.len(),
{
    if items.len() > 0 {
        lemma_positions_of_absent(items.drop_last(), target);
    }
}

/// Scaling by a sign is multiplying by the integer it stands for.
pub proof fn lemma_scale_is_product(sign: Sign, n: int)
    ensures
        sign.scale(n) == sign.value() * n,
{
}

} // verus!
