//! How the weight of a relay is found from the bandwidth that the consensus
//! declares for it.
//!
//! One rule holds for a whole directory. Which one depends on how much the
//! consensus knows: nothing at all, only what relays say of themselves, or
//! what the authorities measured.

use crate::doc::{MdConsensus, RouterStatus, RouterWeight};
use vstd::prelude::*;

verus! {

/// How should we find the base weight of each relay? This value is global
/// over a whole directory, and depends on the bandwidth weights in the
/// consensus.
#[derive(Copy, Clone, Debug, PartialEq, Eq, Structural)]
pub enum WeightFn {
    /// There are no weights at all in the consensus: weight every relay as 1.
    Uniform,
    /// There are no measured weights in the consensus: count unmeasured
    /// weights as the weights for relays.
    IncludeUnmeasured,
    /// There are measured relays in the consensus; only use those.
    MeasuredOnly,
}

impl WeightFn {
    /// The weight that this rule gives to a declared bandwidth.
    pub open spec fn spec_apply(&self, w: RouterWeight) -> u32 {
        match (*self, w) {
            (WeightFn::Uniform, _) => 1,
            (WeightFn::IncludeUnmeasured, RouterWeight::Unmeasured(u)) => u,
            (WeightFn::IncludeUnmeasured, RouterWeight::Measured(u)) => u,
            (WeightFn::IncludeUnmeasured, RouterWeight::Absent) => 0,
            (WeightFn::MeasuredOnly, RouterWeight::Measured(u)) => u,
            (WeightFn::MeasuredOnly, _) => 0,
        }
    }

    /// Apply this weight function to the measured or unmeasured bandwidth of
    /// a single router.
    pub fn apply(&self, w: &RouterWeight) -> (r: u32)
        ensures
            r == self.spec_apply(*w),
    {
        match (self, w) {
            (WeightFn::Uniform, _) => 1,
            (WeightFn::IncludeUnmeasured, RouterWeight::Unmeasured(u)) => *u,
            (WeightFn::IncludeUnmeasured, RouterWeight::Measured(u)) => *u,
            (WeightFn::IncludeUnmeasured, RouterWeight::Absent) => 0,
            (WeightFn::MeasuredOnly, RouterWeight::Measured(u)) => *u,
            (WeightFn::MeasuredOnly, _) => 0,
        }
    }
}

/// True if one of the relays has a measured bandwidth.
pub open spec fn has_measured(routers: Seq<RouterStatus>) -> bool {
    exists|i: int| 0 <= i < routers.len() && (#[trigger] routers[i]).weight.spec_is_measured()
}

/// True if one of the relays has a bandwidth other than 0.
pub open spec fn has_nonzero(routers: Seq<RouterStatus>) -> bool {
    exists|i: int| 0 <= i < routers.len() && (#[trigger] routers[i]).weight.spec_is_nonzero()
}

/// The rule that goes with a list of relays: uniform weights where no relay
/// has a bandwidth other than 0, else all declared bandwidths where none is
/// measured, else the measured ones alone.
pub open spec fn spec_pick_weight_fn(routers: Seq<RouterStatus>) -> WeightFn {
    if !has_nonzero(routers) {
        WeightFn::Uniform
    } else if !has_measured(routers) {
        WeightFn::IncludeUnmeasured
    } else {
        WeightFn::MeasuredOnly
    }
}

/// Calculate the function we should use to find initial relay weights.
pub fn pick_weight_fn(consensus: &MdConsensus) -> (r: WeightFn)
    ensures
        r == spec_pick_weight_fn(consensus.routers@),
{
    let routers = &consensus.routers;
    let mut seen_measured = false;
    let mut seen_nonzero = false;
    let mut i: usize = 0;
    while i < routers.len()
        invariant
            i <= routers@.len(),
            seen_measured == has_measured(routers@.take(i as int)),
            seen_nonzero == has_nonzero(routers@.take(i as int)),
        decreases routers@.len() - i,
    {
        let ghost before = routers@.take(i as int);
        let ghost after = routers@.take(i + 1);
        let w = &routers[i].weight;
        let m = w.is_measured();
        let z = w.is_nonzero();
        proof {
            assert(after[i as int] == routers@[i as int]);
            assert forall|j: int| 0 <= j < i implies before[j] == after[j] by {}
            if has_measured(before) {
                let j = choose|j: int|
                    0 <= j < before.len() && (#[trigger] before[j]).weight.spec_is_measured();
                assert(after[j].weight.spec_is_measured());
            }
            if has_nonzero(before) {
                let j = choose|j: int|
                    0 <= j < before.len() && (#[trigger] before[j]).weight.spec_is_nonzero();
                assert(after[j].weight.spec_is_nonzero());
            }
            if has_measured(after) && !m {
                let j = choose|j: int|
                    0 <= j < after.len() && (#[trigger] after[j]).weight.spec_is_measured();
                assert(before[j].weight.spec_is_measured());
            }
            if has_nonzero(after) && !z {
                let j = choose|j: int|
                    0 <= j < after.len() && (#[trigger] after[j]).weight.spec_is_nonzero();
                assert(before[j].weight.spec_is_nonzero());
            }
        }
        seen_measured = seen_measured || m;
        seen_nonzero = seen_nonzero || z;
        i += 1;
    }
    assert(routers@.take(i as int) =~= routers@);
    if !seen_nonzero {
        WeightFn::Uniform
    } else if !seen_measured {
        WeightFn::IncludeUnmeasured
    } else {
        WeightFn::MeasuredOnly
    }
}

/// Where no relay declares a bandwidth other than 0, the rule is uniform, and
/// every relay weighs 1.
pub proof fn law_no_weights_means_uniform(routers: Seq<RouterStatus>, i: int)
    requires
        0 <= i < routers.len(),
        forall|k: int| 0 <= k < routers.len() ==> !(#[trigger] routers[k]).weight.spec_is_nonzero(),
    ensures
        spec_pick_weight_fn(routers) == WeightFn::Uniform,
        spec_pick_weight_fn(routers).spec_apply(routers[i].weight) == 1,
{
}

/// Where some relay declares a bandwidth other than 0 and none is measured,
/// every relay weighs what it declares.
pub proof fn law_unmeasured_weights_count(routers: Seq<RouterStatus>, i: int)
    requires
        0 <= i < routers.len(),
        has_nonzero(routers),
        forall|k: int| 0 <= k < routers.len() ==> !(#[trigger] routers[k]).weight.spec_is_measured(),
    ensures
        spec_pick_weight_fn(routers) == WeightFn::IncludeUnmeasured,
        spec_pick_weight_fn(routers).spec_apply(routers[i].weight) == (match routers[i].weight {
            RouterWeight::Unmeasured(u) => u,
            _ => 0,
        }),
{
}

/// Where some relay has a measured bandwidth, and some relay a bandwidth
/// other than 0, only measured bandwidths count: a relay without one weighs
/// nothing, whatever it declares.
pub proof fn law_measured_weights_only(routers: Seq<RouterStatus>, i: int)
    requires
        0 <= i < routers.len(),
        has_measured(routers),
        has_nonzero(routers),
    ensures
        spec_pick_weight_fn(routers) == WeightFn::MeasuredOnly,
        spec_pick_weight_fn(routers).spec_apply(routers[i].weight) == (match routers[i].weight {
            RouterWeight::Measured(u) => u,
            _ => 0,
        }),
{
}

} // verus!
