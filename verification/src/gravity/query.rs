//! Resolution of a point query: which of the overlapping fields decide the
//! up direction.

use vstd::prelude::*;
use crate::gravity::{Level, Mask};
use crate::gravity::util::{lemma_positions_of, lemma_positions_of_absent, positions_of};

verus! {

/// Settings of a gravity query.
#[derive(Clone, Copy, Debug)]
pub struct GravityQuery {
    /// Define the collision mask
    collision_mask: Mask,
    /// Define the maximum number of results to report
    max_results: u32,
}

impl GravityQuery {
    /// The collision mask.
    pub closed spec fn spec_collision_mask(&self) -> Mask {
        self.collision_mask
    }

    /// The maximum number of results to report.
    pub closed spec fn spec_max_results(&self) -> u32 {
        self.max_results
    }

    /// The number handed to a space query that counts with `i32`: the
    /// maximum number of results, or the largest such number where the
    /// maximum is above it. It is never negative.
    pub open spec fn spec_result_cap(&self) -> int {
        if self.spec_max_results() <= i32::MAX {
            self.spec_max_results() as int
        } else {
            i32::MAX as int
        }
    }

    /// A query on the first collision layer that reports up to 32 results.
    pub fn new() -> (query: Self)
        ensures
            query.spec_collision_mask() == 1,
            query.spec_max_results() == 32,
    {
        Self { collision_mask: 0b1, max_results: 32 }
    }

    /// The collision mask.
    pub fn collision_mask(&self) -> (mask: Mask)
        ensures
            mask == self.spec_collision_mask(),
    {
        self.collision_mask
    }

    /// The maximum number of results to report.
    pub fn max_results(&self) -> (count: u32)
        ensures
            count == self.spec_max_results(),
    {
        self.max_results
    }

    /// Look at the layers of `collision_mask` from now on.
    #[inline]
    pub fn set_collision_mask(&mut self, collision_mask: Mask)
        ensures
            final(self).spec_collision_mask() == collision_mask,
            final(self).spec_max_results() == old(self).spec_max_results(),
    {
        self.collision_mask = collision_mask;
    }

    /// Report up to `max_results` results from now on.
    #[inline]
    pub fn set_max_results(&mut self, max_results: u32)
        ensures
            final(self).spec_max_results() == max_results,
            final(self).spec_collision_mask() == old(self).spec_collision_mask(),
    {
        self.max_results = max_results;
    }

    /// The maximum number of results as a space query takes it.
    pub fn result_cap(&self) -> (cap: i32)
        ensures
            cap == self.spec_result_cap(),
            0 <= cap,
    {
        if self.max_results <= 0x7fff_ffff {
            self.max_results as i32
        } else {
            i32::MAX
        }
    }
}

/// The highest level among the fields of `levels`, and the lowest level
/// there is where none of the results is a field.
pub open spec fn highest_level(levels: Seq<Option<Level>>) -> Level
    decreases levels.len(),
{
    if levels.len() == 0 {
        Level::MIN
    } else {
        let before = highest_level(levels.drop_last());
        match levels.last() {
            Some(level) => if level > before {
                level
            } else {
                before
            },
            None => before,
        }
    }
}

/// The results that decide the direction, in the order they were reported:
/// the fields of the highest level.
pub open spec fn contributors(levels: Seq<Option<Level>>) -> Seq<usize> {
    positions_of(levels, Some(highest_level(levels)))
}

/// Whether result `index` is a field that no field among the results
/// outranks.
pub open spec fn dominates(levels: Seq<Option<Level>>, index: int) -> bool {
    &&& 0 <= index < levels.len()
    &&& levels[index] matches Some(level)
    &&& forall|j: int|
        0 <= j < levels.len() ==> (#[trigger] levels[j] matches Some(other) ==> other <= level)
}

/// Pick the fields that decide the up direction at a point.
///
/// `levels` holds one entry per result of the space query, in the order
/// reported: the level of the field found, or `None` for a result that is no
/// gravity field. The answer is `None` when nothing overlaps the point, and
/// otherwise the indices of the fields of the highest level seen. The up
/// direction at the point is the sum of their directions, brought back to
/// unit length; lower fields do not count.
pub fn select_fields(levels: &Vec<Option<Level>>) -> (fields: Option<Vec<usize>>)
    ensures
        fields is None <==> levels@.len() == 0,
        fields matches Some(list) ==> list@ == contributors(levels@),
{
    if levels.len() == 0 {
        return None;
    }
    // try to find the best gravity fields

    let mut level: Level = Level::MIN;
    let mut fields: Vec<usize> = Vec::new();
    let mut index: usize = 0;
    while index < levels.len()
        invariant
            index <= levels.len(),
            level == highest_level(levels@.take(index as int)),
            fields@ == positions_of(levels@.take(index as int), Some(level)),
        decreases levels.len() - index,
    {
        proof {
            let seen = levels@.take(index as int);
            assert(levels@.take(index + 1).drop_last() == seen);
            lemma_highest_level(seen);
        }
        // Based on the level of the gravity field, either
        // reset the current list, simply add it or ignore it.
        match levels[index] {
            Some(new_level) => {
                if new_level > level {
                    level = new_level;
                    fields = Vec::new();
                    fields.push(index);
                    proof {
                        lemma_positions_of_absent(levels@.take(index as int), Some(level));
                    }
                } else if new_level == level {
                    fields.push(index);
                }
            },
            None => {},
        }
        index = index + 1;
    }
    assert(levels@.take(index as int) == levels@);
    Some(fields)
}

/// The highest level is at least the level of every field, and it is the
/// level of some field unless it is the lowest level there is.
pub proof fn lemma_highest_level(levels: Seq<Option<Level>>)
    ensures
        forall|j: int|
            0 <= j < levels.len() ==> (#[trigger] levels[j] matches Some(other) ==> other
                <= highest_level(levels)),
        highest_level(levels) == Level::MIN || exists|j: int|
            0 <= j < levels.len() && #[trigger] levels[j] == Some(highest_level(levels)),
    decreases levels.len(),
{
    if levels.len() > 0 {
        let front = levels.drop_last();
        lemma_highest_level(front);
        assert forall|j: int| 0 <= j < levels.len() implies (#[trigger] levels[j] matches Some(
            other,
        ) ==> other <= highest_level(levels)) by {
            if j < front.len() {
                assert(front[j] == levels[j]);
            }
        }
        if highest_level(levels) != Level::MIN {
            if highest_level(levels) == highest_level(front) {
                let j = choose|j: int|
                    0 <= j < front.len() && #[trigger] front[j] == Some(highest_level(front));
                assert(levels[j] == Some(highest_level(levels)));
            } else {
                assert(levels[levels.len() - 1] == Some(highest_level(levels)));
            }
        }
    }
}

/// How one more result changes the picture: a field of a strictly higher
/// level than all before resets the list to itself; a field of the highest
/// level so far joins the list; a lower field, and a result that is no
/// field, leave the list as it was.
pub proof fn lemma_scan_step(levels: Seq<Option<Level>>, next: Option<Level>)
    requires
        levels.len() < usize::MAX,
    ensures
        contributors(levels.push(next)) == (match next {
            Some(level) => if level > highest_level(levels) {
                seq![levels.len() as usize]
            } else if level == highest_level(levels) {
                contributors(levels).push(levels.len() as usize)
            } else {
                contributors(levels)
            },
            None => contributors(levels),
        }),
        highest_level(levels.push(next)) == (match next {
            Some(level) => if level > highest_level(levels) {
                level
            } else {
                highest_level(levels)
            },
            None => highest_level(levels),
        }),
{
    let all = levels.push(next);
    assert(all.drop_last() == levels);
    assert(all.last() == next);
    lemma_highest_level(levels);
    if let Some(level) = next {
        if level > highest_level(levels) {
            lemma_positions_of_absent(levels, Some(level));
        }
    }
}

/// What the fields picked have in common: each is a field that no other
/// outranks, every such field is picked, and they come in the order
/// reported. A result that is no field, or a field of a lower level, is
/// never picked.
pub proof fn lemma_contributors(levels: Seq<Option<Level>>)
    requires
        levels.len() <= usize::MAX,
    ensures
        forall|k: int|
            0 <= k < contributors(levels).len() ==> dominates(
                levels,
                #[trigger] contributors(levels)[k] as int,
            ),
        forall|i: int|
            dominates(levels, i) ==> exists|k: int|
                0 <= k < contributors(levels).len() && #[trigger] contributors(levels)[k] == i,
        forall|a: int, b: int|
            0 <= a < b < contributors(levels).len() ==> contributors(levels)[a] < contributors(
                levels,
            )[b],
{
    let top = highest_level(levels);
    lemma_highest_level(levels);
    lemma_positions_of(levels, Some(top));
    let list = contributors(levels);
    assert forall|i: int| dominates(levels, i) implies exists|k: int|
        0 <= k < list.len() && #[trigger] list[k] == i by {
        if top != Level::MIN {
            let j = choose|j: int| 0 <= j < levels.len() && #[trigger] levels[j] == Some(top);
            assert(levels[j] matches Some(other) && other == top);
        }
        assert(levels[i] == Some(top));
    }
}

/// Where some result is a gravity field, at least one field is picked.
pub proof fn lemma_some_field_contributes(levels: Seq<Option<Level>>, index: int)
    requires
        levels.len() <= usize::MAX,
        0 <= index < levels.len(),
        levels[index] is Some,
    ensures
        contributors(levels).len() > 0,
{
    let top = highest_level(levels);
    lemma_highest_level(levels);
    lemma_positions_of(levels, Some(top));
    if top == Level::MIN {
        assert(levels[index] == Some(top));
    } else {
        let j = choose|j: int| 0 <= j < levels.len() && #[trigger] levels[j] == Some(top);
    }
}

} // verus!
