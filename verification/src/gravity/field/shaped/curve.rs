//! Curve shapes: a tube of constant radius that follows a sampled curve.

use vstd::prelude::*;
use crate::gravity::field::shaped::MakeColliders;

verus! {

/// The capsule that covers a stretch of the curve: as thick as the tube,
/// and as long as the curve's sampling interval between its round ends.
#[derive(Clone, Copy, Debug, PartialEq, Eq, Structural)]
pub struct Capsule;

/// The stretch of the curve between two consecutive samples. The capsule
/// that covers it is centred halfway between both, and its long axis points
/// from the first to the second.
#[derive(Clone, Copy, Debug, PartialEq, Eq, Structural)]
pub struct Segment {
    /// Number of the sample at which the stretch starts.
    pub from: usize,
    /// Number of the sample at which it ends, the next one.
    pub to: usize,
}

/// Number of stretches between `points` samples: one for each pair of
/// consecutive samples.
pub open spec fn segment_count(points: nat) -> nat {
    if points >= 2 {
        (points - 1) as nat
    } else {
        0
    }
}

/// The stretches between `points` samples, from the start of the curve.
pub open spec fn segments(points: nat) -> Seq<(Capsule, Segment)> {
    Seq::new(
        segment_count(points),
        |i: int| (Capsule, Segment { from: i as usize, to: (i + 1) as usize }),
    )
}

/// Internal shapes of a curve: one capsule, placed once for each stretch.
#[derive(Clone, Copy, Debug, PartialEq, Eq, Structural)]
pub struct Internal {
    /// Number of samples of the curve.
    pub points: usize,
}

impl Internal {
    /// Build collision shapes for a curve sampled at `points` points.
    pub fn new(points: usize) -> (internal: Self)
        ensures
            internal.points == points,
    {
        Internal { points }
    }
}

impl MakeColliders<Capsule, Segment> for Internal {
    /// Return a list of colliders
    fn colliders(&self) -> (list: Vec<(Capsule, Segment)>)
        ensures
            list@ == segments(self.points as nat),
    {
        // build the transforms to create the curve
        let mut list: Vec<(Capsule, Segment)> = Vec::new();

        // iterate over the points two by two
        let mut i: usize = 0;
        while i + 1 < self.points
            invariant
                i <= segment_count(self.points as nat),
                list@.len() == i,
                forall|k: int|
                    0 <= k < i ==> #[trigger] list@[k] == (
                        Capsule,
                        Segment { from: k as usize, to: (k + 1) as usize },
                    ),
            decreases self.points - i,
        {
            list.push((Capsule, Segment { from: i, to: i + 1 }));
            i = i + 1;
        }
        assert(list@ =~= segments(self.points as nat));
        list
    }
}

/// Define a gravity based on a tube round a curve.
///
/// The curve and the radius of the tube are the caller's; the shape keeps
/// the number of samples of the curve, if one is configured, and its
/// colliders once they are generated.
pub struct GravityShapedCurve {
    /// Generated shapes
    internal: Option<Internal>,
    /// Number of samples of the curve to follow
    curve: Option<usize>,
}

impl GravityShapedCurve {
    #[verifier::type_invariant]
    spec fn wf(self) -> bool {
        self.internal matches Some(internal) ==> self.curve == Some(internal.points)
    }

    /// Number of samples of the curve, or `None` where no curve is
    /// configured.
    pub closed spec fn curve(self) -> Option<usize> {
        self.curve
    }

    /// Whether the colliders are at hand, generated for the parameters as
    /// they are.
    pub closed spec fn cached(self) -> bool {
        self.internal is Some
    }

    /// The colliders that the parameters call for: one capsule for each
    /// stretch of the curve, and none without a curve.
    pub open spec fn spec_colliders(self) -> Seq<(Capsule, Segment)> {
        match self.curve() {
            Some(points) => segments(points as nat),
            None => Seq::empty(),
        }
    }

    /// A shape without a curve.
    pub fn new() -> (shape: Self)
        ensures
            shape.curve() is None,
            !shape.cached(),
    {
        Self { internal: None, curve: None }
    }

    /// Whether a curve is configured. Without one, up is zero everywhere.
    pub fn has_curve(&self) -> (configured: bool)
        ensures
            configured == self.curve() is Some,
    {
        self.curve.is_some()
    }

    /// Follow another curve, sampled at this number of points, or none.
    pub fn set_curve(&mut self, curve: Option<usize>)
        ensures
            final(self).curve() == curve,
            !final(self).cached(),
    {
        self.internal = None;
        self.curve = curve;
    }

    /// Take a new radius for the tube: the capsules stay where they are,
    /// with a new size.
    pub fn set_radius(&mut self)
        ensures
            final(self).curve() == old(self).curve(),
            !final(self).cached(),
    {
        self.internal = None;
    }

    /// Return a list of colliders: those for the parameters as they are
    /// now, generated on the first call after a parameter was set and kept
    /// for the next ones. There is none as long as no curve is configured.
    pub fn colliders(&mut self) -> (list: Vec<(Capsule, Segment)>)
        ensures
            list@ == old(self).spec_colliders(),
            final(self).curve() == old(self).curve(),
            final(self).cached() == (old(self).cached() || old(self).curve() is Some),
    {
        proof {
            use_type_invariant(&*self);
        }
        if let Some(points) = self.curve {
            // Recompute the internal shapes if requested
            let internal = match self.internal {
                Some(internal) => internal,
                None => {
                    let internal = Internal::new(points);
                    self.internal = Some(internal);
                    internal
                },
            };

            // Ask the internal shape for its colliders set
            internal.colliders()
        } else {
            Vec::new()
        }
    }
}

/// A curve of at least two samples is covered from its first sample to its
/// last: the stretches follow one another, each starting where the one
/// before ended.
pub proof fn lemma_segments_chain(points: nat, k: int)
    requires
        2 <= points <= usize::MAX,
        0 <= k < segments(points).len(),
    ensures
        segments(points).len() == points - 1,
        segments(points)[0].1.from == 0,
        segments(points)[points - 2].1.to == points - 1,
        segments(points)[k].1.to == segments(points)[k].1.from + 1,
        k > 0 ==> segments(points)[k].1.from == segments(points)[k - 1].1.to,
{
}

} // verus!
