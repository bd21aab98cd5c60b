//! Choosing one item at random from a stream of weighted items, in a single
//! pass and without keeping the items.
//!
//! The running sum of the weights seen so far is kept together with the item
//! chosen among them. A new item of weight `w` takes the place of the chosen
//! one when a number drawn below the new sum falls below `w`: that is, with
//! probability `w` in the new sum.

use crate::random::draw_in_range;
use rand::rngs::StdRng;
use vstd::prelude::*;
use vstd::set_lib::{lemma_int_range, set_int_range};

verus! {

/// The state of a weighted choice that is under way.
pub struct Reservoir<T> {
    /// The item chosen among those offered so far.
    chosen: Option<T>,
    /// The summed weight of the items offered so far.
    total: u128,
}

impl<T> Reservoir<T> {
    /// An item is chosen as soon as anything of weight has been offered.
    #[verifier::type_invariant]
    pub closed spec fn wf(&self) -> bool {
        (self.chosen is None) == (self.total == 0)
    }

    /// The item chosen among those offered so far.
    pub closed spec fn spec_chosen(&self) -> Option<T> {
        self.chosen
    }

    /// The summed weight of the items offered so far.
    pub closed spec fn spec_total(&self) -> u128 {
        self.total
    }

    /// Start a choice: nothing offered, nothing chosen.
    pub fn new() -> (r: Self)
        ensures
            r.wf(),
            r.spec_chosen() is None,
            r.spec_total() == 0,
    {
        Reservoir { chosen: None, total: 0 }
    }

    /// The summed weight of the items offered so far.
    #[verifier::when_used_as_spec(spec_total)]
    pub fn total(&self) -> (r: u128)
        ensures
            r == self.spec_total(),
            (r == 0) == (self.spec_chosen() is None),
    {
        proof {
            use_type_invariant(self);
        }
        self.total
    }

    /// Offer `item`, of weight `weight`, with `draw` a number drawn uniformly
    /// below the sum of all weights including this one.
    ///
    /// The item is chosen if the draw falls below its weight; else the choice
    /// stays as it was. The first item offered is always chosen.
    pub fn offer(self, item: T, weight: u64, draw: u128) -> (r: Self)
        requires
            weight > 0,
            self.spec_total() + weight <= u128::MAX,
            draw < self.spec_total() + weight,
        ensures
            r.wf(),
            r.spec_total() == self.spec_total() + weight,
            r.spec_chosen() == (if draw < weight {
                Some(item)
            } else {
                self.spec_chosen()
            }),
            r.spec_chosen() is Some,
    {
        proof {
            use_type_invariant(&self);
        }
        let total = self.total + weight as u128;
        let chosen = if draw < weight as u128 {
            Some(item)
        } else {
            self.chosen
        };
        Reservoir { chosen, total }
    }

    /// Offer `item`, of weight `weight`, and let `rng` decide. An item of
    /// weight 0 is never chosen, and no number is drawn for it.
    pub fn offer_random(self, rng: &mut StdRng, item: T, weight: u64) -> (r: Self)
        requires
            self.spec_total() + weight <= u128::MAX,
        ensures
            r.wf(),
            r.spec_total() == self.spec_total() + weight,
            r.spec_chosen() == Some(item) || r.spec_chosen() == self.spec_chosen(),
            weight == 0 ==> r.spec_chosen() == self.spec_chosen(),
            self.spec_total() == 0 && weight > 0 ==> r.spec_chosen() == Some(item),
            (r.spec_chosen() is None) == (r.spec_total() == 0),
    {
        proof {
            use_type_invariant(&self);
        }
        if weight == 0 {
            return self;
        }
        let bound = self.total + weight as u128;
        let draw = draw_in_range(rng, 0, bound);
        self.offer(item, weight, draw)
    }

    /// End the choice and take the chosen item. There is none exactly if
    /// nothing of weight was offered.
    pub fn into_chosen(self) -> (r: Option<T>)
        ensures
            r == self.spec_chosen(),
            (r is None) == (self.spec_total() == 0),
    {
        proof {
            use_type_invariant(&self);
        }
        self.chosen
    }
}

/// The draws for which an item of weight `weight` is taken, when the items
/// offered before it weigh `total`: the numbers below `total + weight` that
/// are below `weight`.
pub open spec fn draws_taking(total: nat, weight: nat) -> Set<int> {
    Set::new(|x: int| 0 <= x < total + weight && x < weight)
}

/// The draws for which the choice stays as it was.
pub open spec fn draws_keeping(total: nat, weight: nat) -> Set<int> {
    Set::new(|x: int| 0 <= x < total + weight && !(x < weight))
}

/// Of the `total + weight` numbers that can be drawn when an item is
/// offered, exactly `weight` take the item and exactly `total` keep the
/// earlier choice.
pub proof fn law_offer_takes_in_proportion(total: nat, weight: nat)
    ensures
        draws_taking(total, weight).finite(),
        draws_taking(total, weight).len() == weight,
        draws_keeping(total, weight).finite(),
        draws_keeping(total, weight).len() == total,
{
    lemma_int_range(0, weight as int);
    lemma_int_range(weight as int, (total + weight) as int);
    assert(draws_taking(total, weight) =~= set_int_range(0, weight as int));
    assert(draws_keeping(total, weight) =~= set_int_range(weight as int, (total + weight) as int));
}

/// The summed weight of the first `n` items.
pub open spec fn weight_sum(ws: Seq<u64>, n: int) -> int
    decreases n,
{
    if n <= 0 {
        0
    } else {
        weight_sum(ws, n - 1) + ws[n - 1]
    }
}

/// In how many ways the numbers for the first `n` items can be drawn: for
/// each item of weight, a number below the sum of the weights up to it.
pub open spec fn all_ways(ws: Seq<u64>, n: int) -> int
    decreases n,
{
    if n <= 0 {
        1
    } else if ws[n - 1] > 0 {
        all_ways(ws, n - 1) * weight_sum(ws, n)
    } else {
        all_ways(ws, n - 1)
    }
}

/// In how many of these ways item `i` is the one chosen after the first `n`
/// items: the number for item `i` falls below its weight, which it does in
/// `ws[i]` cases whatever came before, and the number for each later item of
/// weight does not fall below that item's weight.
pub open spec fn ways_choosing(ws: Seq<u64>, i: int, n: int) -> int
    decreases n - i,
{
    if n <= i {
        0
    } else if n == i + 1 {
        ws[i] * all_ways(ws, i)
    } else if ws[n - 1] > 0 {
        ways_choosing(ws, i, n - 1) * (weight_sum(ws, n) - ws[n - 1])
    } else {
        ways_choosing(ws, i, n - 1)
    }
}

/// Every item is chosen in proportion to its weight: the ways that choose
/// item `i` are to all ways as the weight of `i` is to the sum of all
/// weights.
pub proof fn law_chosen_in_proportion(ws: Seq<u64>, i: int, n: int)
    requires
        0 <= i < n <= ws.len(),
    ensures
        ways_choosing(ws, i, n) * weight_sum(ws, n) == ws[i] * all_ways(ws, n),
    decreases n,
{
    let w = ws[n - 1] as int;
    let s = weight_sum(ws, n);
    if n == i + 1 {
        let a = all_ways(ws, i);
        if w > 0 {
            assert((w * a) * s == w * (a * s)) by (nonlinear_arith);
        } else {
            assert((w * a) * s == 0) by (nonlinear_arith)
                requires
                    w == 0,
            ;
            assert(w * a == 0) by (nonlinear_arith)
                requires
                    w == 0,
            ;
        }
    } else {
        law_chosen_in_proportion(ws, i, n - 1);
        let c = ways_choosing(ws, i, n - 1);
        let a = all_ways(ws, n - 1);
        let t = weight_sum(ws, n - 1);
        let wi = ws[i] as int;
        if w > 0 {
            assert(s - w == t);
            assert((c * t) * s == (wi * a) * s);
            assert((c * t) * s == (c * (s - w)) * s) by (nonlinear_arith)
                requires
                    s - w == t,
            ;
            assert((wi * a) * s == wi * (a * s)) by (nonlinear_arith);
        }
    }
}

} // verus!
