//! Bridge fields: a smooth transition between several other gravity fields.
//!
//! Each point of a bridge names another field and a plane that delimits it.
//! Where a position lies relative to those planes decides how the directions
//! of the named fields are blended; the blending itself is arithmetic on
//! measured distances and angles and is left to the caller.

use vstd::prelude::*;
use crate::gravity::util::{lemma_positions_of, positions_of};

verus! {

/// Where a position lies relative to the delimiting plane of a bridge point.
#[derive(Clone, Copy, Debug, PartialEq, Eq, Hash, Structural)]
pub enum Side {
    /// The field the point names is gone: the point contributes nothing.
    Missing,
    /// The position is over the plane, on the side of the bridge.
    Above,
    /// The position is under the plane, beyond the bridge.
    Below,
    /// The position is on the plane, at no distance from it.
    On,
}

/// How to blend the directions of the fields a bridge joins.
#[derive(Clone, Debug, PartialEq, Eq)]
pub enum Blend {
    /// Nothing contributes: the direction is zero.
    Nothing,
    /// The position is on the plane of each listed point, where the field
    /// of the point rules alone: the listed points weigh in alike, each
    /// with the direction of its field at the position.
    Equal(Vec<usize>),
    /// One point decides alone: the direction is that of its field at the
    /// position.
    Direct(usize),
    /// The position is inside the region that the planes bound. Each listed
    /// point weighs in with the direction of its field at the projection of
    /// the position onto its plane, by the sum of the tangents of the half
    /// angles to its two neighbours, divided by its distance to the plane.
    MeanValue(Vec<usize>),
    /// The position is outside of the region. Each listed point weighs in
    /// with the direction of its field at the position, by the inverse of
    /// its distance to the plane, the weights brought to a sum of one.
    InverseDistance(Vec<usize>),
}

/// A blend as a mathematical value.
pub enum BlendView {
    Nothing,
    Equal(Seq<usize>),
    Direct(int),
    MeanValue(Seq<usize>),
    InverseDistance(Seq<usize>),
}

impl View for Blend {
    type V = BlendView;

    open spec fn view(&self) -> BlendView {
        match self {
            Blend::Nothing => BlendView::Nothing,
            Blend::Equal(points) => BlendView::Equal(points@),
            Blend::Direct(index) => BlendView::Direct(*index as int),
            Blend::MeanValue(points) => BlendView::MeanValue(points@),
            Blend::InverseDistance(points) => BlendView::InverseDistance(points@),
        }
    }
}

/// The points that see the position on `side`, in the order configured.
pub open spec fn points_on(sides: Seq<Side>, side: Side) -> Seq<usize> {
    positions_of(sides, side)
}

/// How much a side counts: a point on a side that counts more shuts out
/// every point on a side that counts less.
pub open spec fn rank(side: Side) -> int {
    match side {
        Side::Missing => 0,
        Side::Above => 1,
        Side::Below => 2,
        Side::On => 3,
    }
}

/// The blend for a position that the bridge points see on `sides`.
///
/// A point that sees the position on its plane rules: its distance is
/// zero, which no inverse can weigh. Else, as soon as one point sees the
/// position below its plane, the position is outside and only such points
/// count. Otherwise the points that see it above their plane count, all of
/// them.
pub open spec fn blend_for(sides: Seq<Side>) -> BlendView {
    let above = points_on(sides, Side::Above);
    let below = points_on(sides, Side::Below);
    let on = points_on(sides, Side::On);
    if on.len() > 1 {
        BlendView::Equal(on)
    } else if on.len() == 1 {
        BlendView::Direct(on[0] as int)
    } else if below.len() > 1 {
        BlendView::InverseDistance(below)
    } else if below.len() == 1 {
        BlendView::Direct(below[0] as int)
    } else if above.len() > 1 {
        BlendView::MeanValue(above)
    } else if above.len() == 1 {
        BlendView::Direct(above[0] as int)
    } else {
        BlendView::Nothing
    }
}

/// The points that a blend lists.
pub open spec fn listed(blend: BlendView) -> Seq<usize> {
    match blend {
        BlendView::Nothing => Seq::empty(),
        BlendView::Direct(index) => seq![index as usize],
        BlendView::Equal(points) => points,
        BlendView::MeanValue(points) => points,
        BlendView::InverseDistance(points) => points,
    }
}

/// The points of `sides` that lie on `side`, in the order configured.
fn collect_side(sides: &Vec<Side>, side: Side) -> (points: Vec<usize>)
    ensures
        points@ == points_on(sides@, side),
{
    let mut points: Vec<usize> = Vec::new();
    let mut index: usize = 0;
    while index < sides.len()
        invariant
            index <= sides.len(),
            points@ == positions_of(sides@.take(index as int), side),
        decreases sides.len() - index,
    {
        assert(sides@.take(index + 1).drop_last() == sides@.take(index as int));
        if sides[index] == side {
            points.push(index);
        }
        index = index + 1;
    }
    assert(sides@.take(index as int) == sides@);
    points
}

/// Decide how a bridge blends its fields at a position, from the side of
/// each point's plane that the position lies on.
pub fn plan_blend(sides: &Vec<Side>) -> (blend: Blend)
    ensures
        blend@ == blend_for(sides@),
        sides@.len() == 0 ==> blend@ == BlendView::Nothing,
{
    // Prepare a list of points that see the position over their plane
    // and another list of those that see it below.
    let above = collect_side(sides, Side::Above);
    let below = collect_side(sides, Side::Below);
    let on = collect_side(sides, Side::On);

    // Pick the list to use for interpolation
    if on.len() > 1 {
        Blend::Equal(on)
    } else if on.len() == 1 {
        Blend::Direct(on[0])
    } else if below.len() > 1 {
        Blend::InverseDistance(below)
    } else if below.len() == 1 {
        Blend::Direct(below[0])
    } else if above.len() > 1 {
        Blend::MeanValue(above)
    } else if above.len() == 1 {
        Blend::Direct(above[0])
    } else {
        Blend::Nothing
    }
}

/// The neighbour after `index` among `count` points in a cycle.
pub fn successor(index: usize, count: usize) -> (next: usize)
    requires
        index < count,
    ensures
        next == (index + 1) % (count as int),
        next < count,
{
    if index + 1 == count {
        proof {
            vstd::arithmetic::div_mod::lemma_mod_self_0(count as int);
        }
        0
    } else {
        proof {
            vstd::arithmetic::div_mod::lemma_small_mod((index + 1) as nat, count as nat);
        }
        index + 1
    }
}

/// The neighbour before `index` among `count` points in a cycle.
pub fn predecessor(index: usize, count: usize) -> (prev: usize)
    requires
        index < count,
    ensures
        prev == (index + count - 1) % (count as int),
        prev < count,
{
    if index == 0 {
        proof {
            vstd::arithmetic::div_mod::lemma_small_mod((count - 1) as nat, count as nat);
        }
        count - 1
    } else {
        proof {
            vstd::arithmetic::div_mod::lemma_mod_add_multiples_vanish(
                (index - 1) as int,
                count as int,
            );
            vstd::arithmetic::div_mod::lemma_small_mod((index - 1) as nat, count as nat);
        }
        index - 1
    }
}

/// A bridge without points, or whose fields are all gone, gives no direction.
pub proof fn lemma_blend_nothing(sides: Seq<Side>)
    requires
        sides.len() <= usize::MAX,
        forall|i: int| 0 <= i < sides.len() ==> sides[i] == Side::Missing,
    ensures
        blend_for(sides) == BlendView::Nothing,
{
    lemma_positions_of(sides, Side::Above);
    lemma_positions_of(sides, Side::Below);
    lemma_positions_of(sides, Side::On);
    let above = points_on(sides, Side::Above);
    let below = points_on(sides, Side::Below);
    let on = points_on(sides, Side::On);
    if on.len() > 0 {
        assert(sides[on[0] as int] == Side::On);
    }
    if above.len() > 0 {
        assert(sides[above[0] as int] == Side::Above);
    }
    if below.len() > 0 {
        assert(sides[below[0] as int] == Side::Below);
    }
}

/// Which points a blend lists: those on the side that counts most among
/// the sides seen, each of them, in the order configured. A position on a
/// plane is blended among the points that see it there; else a position
/// below any plane among the points that see it below; else among those
/// that see it above. More than one point on a plane weigh alike, more than
/// one below by their distance, more than one above by mean values.
pub proof fn lemma_blend_points(sides: Seq<Side>)
    requires
        sides.len() <= usize::MAX,
    ensures
        forall|k: int|
            0 <= k < listed(blend_for(sides)).len() ==> {
                &&& (#[trigger] listed(blend_for(sides))[k]) < sides.len()
                &&& sides[listed(blend_for(sides))[k] as int] != Side::Missing
                &&& forall|i: int|
                    0 <= i < sides.len() ==> rank(#[trigger] sides[i]) <= rank(
                        sides[listed(blend_for(sides))[k] as int],
                    )
            },
        forall|i: int|
            0 <= i < sides.len() && sides[i] != Side::Missing && (forall|j: int|
                0 <= j < sides.len() ==> rank(#[trigger] sides[j]) <= rank(sides[i])) ==> listed(
                blend_for(sides),
            ).contains(i as usize),
        forall|a: int, b: int|
            0 <= a < b < listed(blend_for(sides)).len() ==> listed(blend_for(sides))[a] < listed(
                blend_for(sides),
            )[b],
        blend_for(sides) is Equal ==> listed(blend_for(sides)).len() > 1 && sides[listed(
            blend_for(sides),
        )[0] as int] == Side::On,
        blend_for(sides) is InverseDistance ==> listed(blend_for(sides)).len() > 1 && sides[listed(
            blend_for(sides),
        )[0] as int] == Side::Below,
        blend_for(sides) is MeanValue ==> listed(blend_for(sides)).len() > 1 && sides[listed(
            blend_for(sides),
        )[0] as int] == Side::Above,
{
    lemma_positions_of(sides, Side::Above);
    lemma_positions_of(sides, Side::Below);
    lemma_positions_of(sides, Side::On);
    let above = points_on(sides, Side::Above);
    let below = points_on(sides, Side::Below);
    let on = points_on(sides, Side::On);
    let list = listed(blend_for(sides));
    let top: Side = if on.len() > 0 {
        Side::On
    } else if below.len() > 0 {
        Side::Below
    } else {
        Side::Above
    };
    assert(list == points_on(sides, top) || list.len() == 0);
    assert forall|i: int| 0 <= i < sides.len() implies rank(#[trigger] sides[i]) <= rank(top)
        || list.len() == 0 by {
        if sides[i] == Side::On {
            let k = choose|k: int| 0 <= k < on.len() && #[trigger] on[k] == i;
        }
        if sides[i] == Side::Below {
            let k = choose|k: int| 0 <= k < below.len() && #[trigger] below[k] == i;
        }
        if sides[i] == Side::Above {
            let k = choose|k: int| 0 <= k < above.len() && #[trigger] above[k] == i;
        }
    }
    assert forall|i: int|
        0 <= i < sides.len() && sides[i] != Side::Missing && (forall|j: int|
            0 <= j < sides.len() ==> rank(#[trigger] sides[j]) <= rank(sides[i])) implies list.contains(
        i as usize,
    ) by {
        if sides[i] == Side::On {
            let k = choose|k: int| 0 <= k < on.len() && #[trigger] on[k] == i;
            assert(list[k] == i);
        } else if sides[i] == Side::Below {
            let k = choose|k: int| 0 <= k < below.len() && #[trigger] below[k] == i;
            if on.len() > 0 {
                assert(rank(sides[on[0] as int]) <= rank(sides[i]));
            }
            assert(list[k] == i);
        } else {
            let k = choose|k: int| 0 <= k < above.len() && #[trigger] above[k] == i;
            if on.len() > 0 {
                assert(rank(sides[on[0] as int]) <= rank(sides[i]));
            }
            if below.len() > 0 {
                assert(rank(sides[below[0] as int]) <= rank(sides[i]));
            }
            assert(list[k] == i);
        }
    }
}

/// Around a cycle, the neighbour before the neighbour after a point is the
/// point itself; and between two points each is both neighbours of the
/// other, so that both weigh the same angle.
pub proof fn lemma_neighbours(index: int, count: int)
    requires
        0 <= index < count,
    ensures
        ((index + 1) % count + count - 1) % count == index,
        ((index + count - 1) % count + 1) % count == index,
        count == 2 ==> (index + 1) % count == (index + count - 1) % count,
{
    vstd::arithmetic::div_mod::lemma_mod_self_0(count);
    vstd::arithmetic::div_mod::lemma_small_mod(index as nat, count as nat);
    vstd::arithmetic::div_mod::lemma_small_mod((count - 1) as nat, count as nat);
    vstd::arithmetic::div_mod::lemma_mod_add_multiples_vanish(index, count);
    if index + 1 < count {
        vstd::arithmetic::div_mod::lemma_small_mod((index + 1) as nat, count as nat);
    }
    if index >= 1 {
        vstd::arithmetic::div_mod::lemma_mod_add_multiples_vanish(index - 1, count);
        vstd::arithmetic::div_mod::lemma_small_mod((index - 1) as nat, count as nat);
    }
}

/// What the mean-value weight of point `index` is divided from, before
/// the distance of the point divides it: the tangent of the half angle to
/// the neighbour before, plus that to the neighbour after. `tangents` holds
/// for each point the tangent of the half angle to its neighbour after.
pub open spec fn weight_numerator(tangents: Seq<int>, index: int) -> int {
    tangents[(index + tangents.len() - 1) % (tangents.len() as int)] + tangents[index]
}

/// Between two points above their planes, both weights are divided from the
/// same sum, so that at equal distances both points weigh the same; and the
/// sum of two directions of equal length, weighed the same, makes the same
/// angle with both: its dot products with them are equal. This is stated of
/// integer tangents and integer vectors, where it is exact.
pub proof fn lemma_two_points_blend(
    tangents: Seq<int>,
    weight: int,
    first: (int, int, int),
    second: (int, int, int),
)
    requires
        tangents.len() == 2,
        first.0 * first.0 + first.1 * first.1 + first.2 * first.2 == second.0 * second.0 + second.1
            * second.1 + second.2 * second.2,
    ensures
        weight_numerator(tangents, 0) == weight_numerator(tangents, 1),
        ({
            let sum = (
                weight * (first.0 + second.0),
                weight * (first.1 + second.1),
                weight * (first.2 + second.2),
            );
            sum.0 * first.0 + sum.1 * first.1 + sum.2 * first.2 == sum.0 * second.0 + sum.1
                * second.1 + sum.2 * second.2
        }),
{
    lemma_neighbours(0, 2);
    lemma_neighbours(1, 2);
    lemma_weighed(weight, first.0, second.0);
    lemma_weighed(weight, first.1, second.1);
    lemma_weighed(weight, first.2, second.2);
    let squares_first = first.0 * first.0 + first.1 * first.1 + first.2 * first.2;
    let squares_second = second.0 * second.0 + second.1 * second.1 + second.2 * second.2;
    assert(weight * (first.0 * first.0) + weight * (first.1 * first.1) + weight * (first.2
        * first.2) == weight * squares_first) by (nonlinear_arith)
        requires
            squares_first == first.0 * first.0 + first.1 * first.1 + first.2 * first.2,
    ;
    assert(weight * (second.0 * second.0) + weight * (second.1 * second.1) + weight * (second.2
        * second.2) == weight * squares_second) by (nonlinear_arith)
        requires
            squares_second == second.0 * second.0 + second.1 * second.1 + second.2 * second.2,
    ;
}

/// One coordinate of a sum of two vectors weighed the same, times the same
/// coordinate of each.
proof fn lemma_weighed(weight: int, a: int, b: int)
    ensures
        (weight * (a + b)) * a == weight * (a * a) + weight * (a * b),
        (weight * (a + b)) * b == weight * (a * b) + weight * (b * b),
{
    assert((weight * (a + b)) * a == weight * (a * a) + weight * (a * b)) by (nonlinear_arith);
    assert((weight * (a + b)) * b == weight * (a * b) + weight * (b * b)) by (nonlinear_arith);
}

} // verus!
