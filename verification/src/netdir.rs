//! A client's view of the network: a consensus that lists the relays, and for
//! each of them a place for the microdescriptor that the consensus names.
//!
//! A directory starts out as a [`PartialNetDir`] with every place empty.
//! Microdescriptors are added as they arrive. Once the relays that can be used
//! carry more than half of the network's weight, the directory can be taken
//! out as a [`NetDir`], from which relays are picked.

use crate::doc::{bytes_eq, MdConsensus, MdDigest, Microdesc, RouterStatus};
use crate::pick::Reservoir;
use crate::relay::{Relay, RelayView, UncheckedRelay};
use crate::weight::{pick_weight_fn, spec_pick_weight_fn, WeightFn};
use rand::rngs::StdRng;
use vstd::prelude::*;

verus! {

/// What a directory holds, as a mathematical value: the relays in the order
/// of the consensus, a table from the digests that the consensus names to the
/// microdescriptor received for each (if any), and the weighting rule.
pub struct NetDirView {
    /// The consensus entries.
    pub routers: Seq<RouterStatus>,
    /// For each wanted digest, the microdescriptor that arrived for it.
    pub mds: Map<MdDigest, Option<Microdesc>>,
    /// The rule that gives each relay its base weight.
    pub weight_fn: WeightFn,
}

impl NetDirView {
    /// True if the consensus names a microdescriptor with digest `d`.
    pub open spec fn wanted(self, d: MdDigest) -> bool {
        exists|i: int| 0 <= i < self.routers.len() && (#[trigger] self.routers[i]).md_digest == d
    }

    /// The table has exactly the digests that the consensus names, a
    /// microdescriptor sits under its own digest, and the weighting rule is
    /// the one that goes with the consensus.
    pub open spec fn valid(self) -> bool {
        &&& forall|d: MdDigest| self.mds.contains_key(d) <==> self.wanted(d)
        &&& forall|d: MdDigest|
            self.mds.contains_key(d) ==> (self.mds[d] matches Some(md) ==> md.digest == d)
        &&& self.weight_fn == spec_pick_weight_fn(self.routers)
    }

    /// True if no microdescriptor has arrived yet.
    pub open spec fn is_empty(self) -> bool {
        forall|d: MdDigest| self.mds.contains_key(d) ==> self.mds[d] is None
    }

    /// True if a microdescriptor has arrived for every digest.
    pub open spec fn is_complete(self) -> bool {
        forall|d: MdDigest| self.mds.contains_key(d) ==> self.mds[d] is Some
    }

    /// The microdescriptor held for relay `i`, if there is one.
    pub open spec fn md_of(self, i: int) -> Option<Microdesc> {
        let d = self.routers[i].md_digest;
        if self.mds.contains_key(d) {
            self.mds[d]
        } else {
            None
        }
    }

    /// True if relay `i` can be used: its microdescriptor is here and its
    /// identity can be relied on.
    pub open spec fn is_usable(self, i: int) -> bool {
        self.md_of(i) is Some && self.routers[i].spec_ed25519_id_is_usable()
    }

    /// The weight of relay `i` under the directory's rule.
    pub open spec fn base_weight(self, i: int) -> u32 {
        self.weight_fn.spec_apply(self.routers[i].weight)
    }

    /// The summed weight of the first `n` relays.
    pub open spec fn total_bw(self, n: int) -> int
        decreases n,
    {
        if n <= 0 {
            0
        } else {
            self.total_bw(n - 1) + self.base_weight(n - 1)
        }
    }

    /// The summed weight of those of the first `n` relays that can be used.
    pub open spec fn usable_bw(self, n: int) -> int
        decreases n,
    {
        if n <= 0 {
            0
        } else if self.is_usable(n - 1) {
            self.usable_bw(n - 1) + self.base_weight(n - 1)
        } else {
            self.usable_bw(n - 1)
        }
    }

    /// True if the usable relays carry more than half of the weight of all
    /// relays, the half rounded down.
    pub open spec fn enough_paths(self) -> bool {
        self.usable_bw(self.routers.len() as int) > self.total_bw(self.routers.len() as int) / 2
    }

    /// The digests of those of the first `n` relays whose microdescriptor is
    /// not here, in the order of the consensus. A digest that two relays
    /// share is listed for each.
    pub open spec fn missing(self, n: int) -> Seq<MdDigest>
        decreases n,
    {
        if n <= 0 {
            Seq::empty()
        } else if self.md_of(n - 1) is None {
            self.missing(n - 1).push(self.routers[n - 1].md_digest)
        } else {
            self.missing(n - 1)
        }
    }

    /// The digests of all microdescriptors that are not here.
    pub open spec fn all_missing(self) -> Seq<MdDigest> {
        self.missing(self.routers.len() as int)
    }

    /// The records of relay `i`, which must be one that has its
    /// microdescriptor.
    pub open spec fn relay_view(self, i: int) -> RelayView {
        RelayView { rs: self.routers[i], md: self.md_of(i).unwrap() }
    }

    /// The usable ones among the first `n` relays, in the order of the
    /// consensus.
    pub open spec fn usable_relays(self, n: int) -> Seq<RelayView>
        decreases n,
    {
        if n <= 0 {
            Seq::empty()
        } else if self.is_usable(n - 1) {
            self.usable_relays(n - 1).push(self.relay_view(n - 1))
        } else {
            self.usable_relays(n - 1)
        }
    }

    /// The directory after `md` was offered to it: stored under its digest if
    /// the consensus names that digest, in place of what was there; ignored
    /// if not.
    pub open spec fn add(self, md: Microdesc) -> NetDirView {
        if self.wanted(md.digest) {
            NetDirView { mds: self.mds.insert(md.digest, Some(md)), ..self }
        } else {
            self
        }
    }
}

/// One entry of the table of microdescriptors.
#[derive(Clone, Debug)]
struct MdEntry {
    /// The digest that the entry is for.
    digest: MdDigest,
    /// The microdescriptor in this entry, or None if a microdescriptor is
    /// wanted but not present.
    md: Option<Microdesc>,
}

/// True if `mds` has an entry for digest `d`.
spec fn has_slot(mds: Seq<MdEntry>, d: MdDigest) -> bool {
    exists|j: int| 0 <= j < mds.len() && (#[trigger] mds[j]).digest == d
}

/// The place of the entry for `d` in `mds`.
spec fn slot_index(mds: Seq<MdEntry>, d: MdDigest) -> int {
    choose|j: int| 0 <= j < mds.len() && (#[trigger] mds[j]).digest == d
}

/// The table that the entries stand for.
spec fn table_map(mds: Seq<MdEntry>) -> Map<MdDigest, Option<Microdesc>> {
    Map::new(|d: MdDigest| has_slot(mds, d), |d: MdDigest| mds[slot_index(mds, d)].md)
}

/// True if entry `j` is the entry of some relay.
spec fn slot_used(slot_of: Seq<usize>, j: int) -> bool {
    exists|i: int| 0 <= i < slot_of.len() && (#[trigger] slot_of[i]) == j
}

/// How the entries and the index of a directory hang together: every relay
/// has its entry, no digest has two, every entry belongs to some relay, and a
/// microdescriptor sits in the entry of its own digest.
spec fn table_wf(routers: Seq<RouterStatus>, mds: Seq<MdEntry>, slot_of: Seq<usize>) -> bool {
    &&& slot_of.len() == routers.len()
    &&& forall|i: int|
        0 <= i < routers.len() ==> (#[trigger] slot_of[i]) < mds.len() && mds[slot_of[i] as int].digest
            == routers[i].md_digest
    &&& forall|j: int, k: int|
        0 <= j < mds.len() && 0 <= k < mds.len() && (#[trigger] mds[j]).digest == (
        #[trigger] mds[k]).digest ==> j == k
    &&& forall|j: int| 0 <= j < mds.len() ==> #[trigger] slot_used(slot_of, j)
    &&& forall|j: int|
        0 <= j < mds.len() ==> ((#[trigger] mds[j]).md matches Some(md) ==> md.digest
            == mds[j].digest)
}

/// In a well-formed table, the entry with a given digest is the one that
/// [`slot_index`] names.
proof fn lemma_slot_index(mds: Seq<MdEntry>, j: int)
    requires
        0 <= j < mds.len(),
        forall|j: int, k: int|
            0 <= j < mds.len() && 0 <= k < mds.len() && (#[trigger] mds[j]).digest == (
            #[trigger] mds[k]).digest ==> j == k,
    ensures
        has_slot(mds, mds[j].digest),
        slot_index(mds, mds[j].digest) == j,
{
    let d = mds[j].digest;
    assert(has_slot(mds, d));
    let c = slot_index(mds, d);
    assert(0 <= c < mds.len() && mds[c].digest == d);
}

/// Find the entry for digest `d`.
fn find_slot(mds: &Vec<MdEntry>, d: &MdDigest) -> (r: Option<usize>)
    ensures
        match r {
            Some(j) => j < mds@.len() && mds@[j as int].digest == *d,
            None => !has_slot(mds@, *d),
        },
{
    let mut j: usize = 0;
    while j < mds.len()
        invariant
            j <= mds@.len(),
            forall|k: int| 0 <= k < j ==> (#[trigger] mds@[k]).digest != *d,
        decreases mds@.len() - j,
    {
        if bytes_eq(&mds[j].digest, d) {
            return Some(j);
        }
        j += 1;
    }
    None
}

/// A view of the network directory, suitable for use in building circuits.
#[derive(Debug)]
pub struct NetDir {
    /// A microdescriptor consensus that lists the members of the network,
    /// and names for each one the microdescriptor that has more information
    /// about it.
    consensus: MdConsensus,
    /// One entry for each digest that the consensus names, in the order in
    /// which the consensus first names them.
    mds: Vec<MdEntry>,
    /// For each relay of the consensus, the place of its entry in `mds`.
    slot_of: Vec<usize>,
    /// Value describing how to find the weight to use when picking a router
    /// by weight.
    weight_fn: WeightFn,
}

impl View for NetDir {
    type V = NetDirView;

    closed spec fn view(&self) -> NetDirView {
        NetDirView {
            routers: self.consensus.routers@,
            mds: table_map(self.mds@),
            weight_fn: self.weight_fn,
        }
    }
}

impl NetDir {
    /// The entries and the index fit the consensus, and the weighting rule is
    /// the one that the consensus calls for.
    #[verifier::type_invariant]
    pub closed spec fn wf(&self) -> bool {
        &&& table_wf(self.consensus.routers@, self.mds@, self.slot_of@)
        &&& self.weight_fn == spec_pick_weight_fn(self.consensus.routers@)
    }

    /// The consensus that this directory was made from.
    pub closed spec fn spec_consensus(&self) -> MdConsensus {
        self.consensus
    }

    /// A well-formed directory stands for a valid table, and the
    /// microdescriptor of a relay is the one in the relay's entry.
    proof fn lemma_view(&self)
        requires
            self.wf(),
        ensures
            self@.valid(),
            self@.routers == self.consensus.routers@,
            forall|i: int|
                0 <= i < self.consensus.routers@.len() ==> self@.md_of(i) == self.mds@[(
                #[trigger] self.slot_of@[i]) as int].md,
    {
        let v = self@;
        let routers = self.consensus.routers@;
        let mds = self.mds@;
        let slot_of = self.slot_of@;
        assert forall|d: MdDigest| v.mds.contains_key(d) <==> v.wanted(d) by {
            if v.mds.contains_key(d) {
                let j = slot_index(mds, d);
                assert(slot_used(slot_of, j));
                let i = choose|i: int| 0 <= i < slot_of.len() && (#[trigger] slot_of[i]) == j;
                assert(routers[i].md_digest == d);
            }
            if v.wanted(d) {
                let i = choose|i: int|
                    0 <= i < routers.len() && (#[trigger] routers[i]).md_digest == d;
                assert(mds[slot_of[i] as int].digest == d);
            }
        }
        assert forall|d: MdDigest| v.mds.contains_key(d) implies (v.mds[d] matches Some(md)
            ==> md.digest == d) by {
            let j = slot_index(mds, d);
            assert(mds[j].digest == d);
        }
        assert forall|i: int| 0 <= i < routers.len() implies v.md_of(i) == mds[(
        #[trigger] slot_of[i]) as int].md by {
            lemma_slot_index(mds, slot_of[i] as int);
        }
    }

    /// What a well-formed directory holds is valid.
    pub proof fn lemma_valid(&self)
        requires
            self.wf(),
        ensures
            self@.valid(),
            self@.routers == self.spec_consensus().routers@,
    {
        self.lemma_view();
    }

    /// The directory of a consensus that lists no relay.
    fn empty() -> (r: Self)
        ensures
            r.wf(),
            r@.valid(),
            r@.routers == Seq::<RouterStatus>::empty(),
            r@.mds == Map::<MdDigest, Option<Microdesc>>::empty(),
            r@.weight_fn == WeightFn::Uniform,
            r@.all_missing() == Seq::<MdDigest>::empty(),
            !r@.enough_paths(),
    {
        let r = NetDir {
            consensus: MdConsensus { routers: Vec::new() },
            mds: Vec::new(),
            slot_of: Vec::new(),
            weight_fn: WeightFn::Uniform,
        };
        proof {
            r.lemma_view();
            assert(r@.routers =~= Seq::<RouterStatus>::empty());
            assert(r@.mds =~= Map::<MdDigest, Option<Microdesc>>::empty());
        }
        r
    }

    /// The consensus that this directory was made from.
    pub fn consensus(&self) -> (r: &MdConsensus)
        ensures
            *r == self.spec_consensus(),
            r.routers@ == self@.routers,
    {
        &self.consensus
    }

    /// The rule by which this directory weighs its relays.
    pub fn weight_fn(&self) -> (r: WeightFn)
        ensures
            r == self@.weight_fn,
            r == spec_pick_weight_fn(self@.routers),
    {
        proof {
            use_type_invariant(self);
        }
        self.weight_fn
    }

    /// Put relay `i` of the consensus together with its microdescriptor, if
    /// that is here.
    fn unchecked_at(&self, i: usize) -> (r: UncheckedRelay<'_>)
        requires
            i < self@.routers.len(),
        ensures
            r.spec_rs() == self@.routers[i as int],
            r.spec_md() == self@.md_of(i as int),
    {
        proof {
            use_type_invariant(self);
            self.lemma_view();
        }
        let j = self.slot_of[i];
        match &self.mds[j].md {
            Some(md) => UncheckedRelay::new(&self.consensus.routers[i], Some(md)),
            None => UncheckedRelay::new(&self.consensus.routers[i], None),
        }
    }

    /// Construct a (possibly invalid) Relay object from a routerstatus and
    /// its microdescriptor (if any).
    ///
    /// The microdescriptor is looked up by the digest that `rs` names; there
    /// is none if the consensus of this directory does not name that digest.
    pub fn relay_from_rs<'a>(&'a self, rs: &'a RouterStatus) -> (r: UncheckedRelay<'a>)
        ensures
            r.spec_rs() == *rs,
            r.spec_md() == (if self@.mds.contains_key(rs.md_digest) {
                self@.mds[rs.md_digest]
            } else {
                None
            }),
    {
        proof {
            use_type_invariant(self);
            self.lemma_view();
        }
        match find_slot(&self.mds, &rs.md_digest) {
            Some(j) => {
                proof {
                    lemma_slot_index(self.mds@, j as int);
                }
                match &self.mds[j].md {
                    Some(md) => UncheckedRelay::new(rs, Some(md)),
                    None => UncheckedRelay::new(rs, None),
                }
            },
            None => UncheckedRelay::new(rs, None),
        }
    }

    /// Return all Relay objects, including invalid ones that we can't use,
    /// in the order of the consensus.
    pub fn all_relays(&self) -> (r: Vec<UncheckedRelay<'_>>)
        ensures
            r@.len() == self@.routers.len(),
            forall|i: int|
                0 <= i < r@.len() ==> (#[trigger] r@[i]).spec_rs() == self@.routers[i]
                    && r@[i].spec_md() == self@.md_of(i),
    {
        let n = self.consensus.routers.len();
        let mut out: Vec<UncheckedRelay<'_>> = Vec::new();
        let mut i: usize = 0;
        while i < n
            invariant
                n == self@.routers.len(),
                i <= n,
                out@.len() == i,
                forall|k: int|
                    0 <= k < i ==> (#[trigger] out@[k]).spec_rs() == self@.routers[k]
                        && out@[k].spec_md() == self@.md_of(k),
            decreases n - i,
        {
            out.push(self.unchecked_at(i));
            i += 1;
        }
        out
    }

    /// Return all usable Relays, in the order of the consensus.
    pub fn relays(&self) -> (r: Vec<Relay<'_>>)
        ensures
            r@.len() == self@.usable_relays(self@.routers.len() as int).len(),
            forall|k: int|
                0 <= k < r@.len() ==> (#[trigger] r@[k])@ == self@.usable_relays(
                    self@.routers.len() as int,
                )[k],
    {
        let n = self.consensus.routers.len();
        let mut out: Vec<Relay<'_>> = Vec::new();
        let mut i: usize = 0;
        while i < n
            invariant
                n == self@.routers.len(),
                i <= n,
                out@.len() == self@.usable_relays(i as int).len(),
                forall|k: int|
                    0 <= k < out@.len() ==> (#[trigger] out@[k])@ == self@.usable_relays(
                        i as int,
                    )[k],
            decreases n - i,
        {
            match self.unchecked_at(i).into_relay() {
                Some(relay) => {
                    out.push(relay);
                },
                None => {},
            }
            i += 1;
        }
        out
    }

    /// Return true if there is enough information in this NetDir to build
    /// multihop circuits: the relays that can be used carry more than half of
    /// the weight of all relays.
    pub fn have_enough_paths(&self) -> (r: bool)
        ensures
            r == self@.enough_paths(),
    {
        let n = self.consensus.routers.len();
        let mut total_bw: u128 = 0;
        let mut have_bw: u128 = 0;
        let mut i: usize = 0;
        while i < n
            invariant
                n == self@.routers.len(),
                i <= n,
                total_bw == self@.total_bw(i as int),
                have_bw == self@.usable_bw(i as int),
                total_bw <= i * 0xffff_ffff,
                have_bw <= total_bw,
            decreases n - i,
        {
            let r = self.unchecked_at(i);
            let w = self.weight_fn.apply(&self.consensus.routers[i].weight);
            assert(i * 0xffff_ffff + 0xffff_ffff <= 0xffff_ffff_ffff_ffff * 0x1_0000_0000) by (nonlinear_arith)
                requires
                    i <= 0xffff_ffff_ffff_ffff,
            ;
            total_bw += w as u128;
            if r.is_usable() {
                have_bw += w as u128;
            }
            i += 1;
        }
        have_bw > (total_bw / 2)
    }

    /// Choose a relay at random.
    ///
    /// Each relay is chosen with probability proportional to a function
    /// `reweight` of the relay and its weight in the consensus.
    ///
    /// This function returns None if (and only if) there are no relays with
    /// nonzero weight.
    pub fn pick_relay<'a, F>(&'a self, rng: &mut StdRng, reweight: F) -> (r: Option<Relay<'a>>)
        where F: Fn(&Relay<'a>, u32) -> u32
        requires
            forall|i: int, rel: Relay<'a>|
                0 <= i < self@.routers.len() && self@.is_usable(i) && rel@ == self@.relay_view(i)
                    ==> #[trigger] call_requires(reweight, (&rel, self@.base_weight(i))),
        ensures
            match r {
                Some(relay) => exists|i: int, w: u32|
                    0 <= i < self@.routers.len() && self@.is_usable(i) && relay@
                        == self@.relay_view(i) && w > 0 && #[trigger] call_ensures(
                        reweight,
                        (&relay, self@.base_weight(i)),
                        w,
                    ),
                None => forall|i: int, rel: Relay<'a>|
                    0 <= i < self@.routers.len() && self@.is_usable(i) && rel@ == self@.relay_view(
                        i,
                    ) ==> #[trigger] call_ensures(reweight, (&rel, self@.base_weight(i)), 0u32),
            },
    {
        let n = self.consensus.routers.len();
        let mut res: Reservoir<Relay<'a>> = Reservoir::new();
        let mut i: usize = 0;
        while i < n
            invariant
                n == self@.routers.len(),
                i <= n,
                res.spec_total() <= i * 0xffff_ffff,
                (res.spec_chosen() is None) == (res.spec_total() == 0),
                forall|k: int, rel: Relay<'a>|
                    0 <= k < self@.routers.len() && self@.is_usable(k) && rel@ == self@.relay_view(k)
                        ==> #[trigger] call_requires(reweight, (&rel, self@.base_weight(k))),
                res.spec_chosen() is None ==> forall|k: int, rel: Relay<'a>|
                    0 <= k < i && self@.is_usable(k) && rel@ == self@.relay_view(k)
                        ==> #[trigger] call_ensures(reweight, (&rel, self@.base_weight(k)), 0u32),
                res.spec_chosen() matches Some(relay) ==> exists|k: int, w: u32|
                    0 <= k < i && self@.is_usable(k) && relay@ == self@.relay_view(k) && w > 0
                        && #[trigger] call_ensures(reweight, (&relay, self@.base_weight(k)), w),
            decreases n - i,
        {
            assert(i * 0xffff_ffff + 0xffff_ffff <= 0xffff_ffff_ffff_ffff * 0x1_0000_0000) by (nonlinear_arith)
                requires
                    i <= 0xffff_ffff_ffff_ffff,
            ;
            match self.unchecked_at(i).into_relay() {
                Some(relay) => {
                    let base = relay.weight(self.weight_fn);
                    let w = reweight(&relay, base);
                    proof {
                        assert(call_ensures(reweight, (&relay, self@.base_weight(i as int)), w));
                        assert forall|rel: Relay<'a>| rel@ == self@.relay_view(i as int) implies rel
                            == relay by {
                            rel.lemma_view_determines(relay);
                        }
                    }
                    res = res.offer_random(rng, relay, w as u64);
                },
                None => {},
            }
            i += 1;
        }
        res.into_chosen()
    }
}

impl Clone for NetDir {
    /// Make a directory of its own from a copy of the consensus and copies of
    /// the microdescriptors that are here.
    fn clone(&self) -> (r: Self) {
        let mut copy = PartialNetDir::new(self.consensus.clone()).netdir;
        let mut j: usize = 0;
        while j < self.mds.len()
            invariant
                j <= self.mds@.len(),
            decreases self.mds@.len() - j,
        {
            match &self.mds[j].md {
                Some(md) => {
                    copy.add_microdesc(md.clone());
                },
                None => {},
            }
            j += 1;
        }
        copy
    }
}

/// A partial or full network directory that we can download
/// microdescriptors for.
pub trait MDReceiver: Sized {
    /// What the directory holds.
    spec fn dir(&self) -> NetDirView;

    /// Return the digests for all of the microdescriptors that this netdir
    /// is missing, in the order of the consensus. The list is made anew from
    /// the directory on each call.
    fn missing_microdescs(&self) -> (r: Vec<MdDigest>)
        ensures
            r@ == self.dir().all_missing(),
    ;

    /// Add a microdescriptor to this netdir, if it was wanted.
    ///
    /// Return true if it was indeed wanted. A microdescriptor that is already
    /// here is replaced by the new one. One that was not wanted leaves the
    /// directory as it was.
    fn add_microdesc(&mut self, md: Microdesc) -> (r: bool)
        ensures
            r == old(self).dir().wanted(md.digest),
            final(self).dir() == old(self).dir().add(md),
            !r ==> *final(self) == *old(self),
    ;
}

impl MDReceiver for NetDir {
    open spec fn dir(&self) -> NetDirView {
        self@
    }

    /// Return the digests for all of the microdescriptors that this netdir
    /// is missing, in the order of the consensus.
    fn missing_microdescs(&self) -> (r: Vec<MdDigest>) {
        let n = self.consensus.routers.len();
        let mut out: Vec<MdDigest> = Vec::new();
        let mut i: usize = 0;
        while i < n
            invariant
                n == self@.routers.len(),
                i <= n,
                out@ == self@.missing(i as int),
            decreases n - i,
        {
            let r = self.unchecked_at(i);
            if !r.has_md() {
                out.push(self.consensus.routers[i].md_digest);
            }
            i += 1;
        }
        out
    }

    /// Add a microdescriptor to this netdir, if it was wanted.
    ///
    /// Return true if it was indeed wanted. A microdescriptor that is already
    /// here is replaced by the new one.
    fn add_microdesc(&mut self, md: Microdesc) -> (r: bool) {
        proof {
            use_type_invariant(&*self);
            self.lemma_view();
        }
        let found = find_slot(&self.mds, &md.digest);
        match found {
            Some(j) => {
                let mut taken = NetDir::empty();
                std::mem::swap(self, &mut taken);
                let NetDir { consensus, mut mds, slot_of, weight_fn } = taken;
                let ghost before = mds@;
                mds.set(j, MdEntry { digest: md.digest, md: Some(md) });
                proof {
                    let after = mds@;
                    assert forall|k: int| 0 <= k < after.len() implies (#[trigger] after[k]).digest
                        == before[k].digest by {}
                    assert(table_wf(consensus.routers@, after, slot_of@));
                }
                *self = NetDir { consensus, mds, slot_of, weight_fn };
                proof {
                    let v0 = old(self)@;
                    let v1 = self@;
                    lemma_slot_index(before, j as int);
                    assert(v0.wanted(md.digest));
                    assert forall|d: MdDigest| v1.mds.contains_key(d) == v0.add(
                        md,
                    ).mds.contains_key(d) by {
                        if has_slot(self.mds@, d) {
                            let k = slot_index(self.mds@, d);
                            assert(before[k].digest == d);
                        }
                        if has_slot(before, d) {
                            let k = slot_index(before, d);
                            assert(self.mds@[k].digest == d);
                        }
                    }
                    assert forall|d: MdDigest| v1.mds.contains_key(d) implies v1.mds[d] == v0.add(
                        md,
                    ).mds[d] by {
                        let k = slot_index(self.mds@, d);
                        assert(self.mds@[k].digest == d);
                        lemma_slot_index(before, k);
                    }
                    assert(v1.mds =~= v0.add(md).mds);
                }
                true
            },
            None => false,
        }
    }
}

/// A partially built NetDir -- it can't be unwrapped until it has enough
/// information to build safe paths.
#[derive(Debug)]
pub struct PartialNetDir {
    /// The netdir that's under construction.
    netdir: NetDir,
}

impl View for PartialNetDir {
    type V = NetDirView;

    closed spec fn view(&self) -> NetDirView {
        self.netdir@
    }
}

impl PartialNetDir {
    /// The directory under construction is well formed.
    pub closed spec fn wf(&self) -> bool {
        self.netdir.wf()
    }

    /// The directory under construction.
    pub closed spec fn spec_netdir(&self) -> NetDir {
        self.netdir
    }

    /// What a well-formed partial directory holds is valid.
    pub proof fn lemma_valid(&self)
        requires
            self.wf(),
        ensures
            self@.valid(),
            self@ == self.spec_netdir()@,
    {
        self.netdir.lemma_view();
    }

    /// Create a new PartialNetDir with a given consensus, and no
    /// microdescriptors loaded.
    ///
    /// The weighting rule is chosen here, once, from the bandwidths of the
    /// consensus.
    pub fn new(consensus: MdConsensus) -> (r: Self)
        ensures
            r.wf(),
            r@.valid(),
            r@.routers == consensus.routers@,
            r@.weight_fn == spec_pick_weight_fn(consensus.routers@),
            r@.is_empty(),
            r.spec_netdir().spec_consensus() == consensus,
    {
        let weight_fn = pick_weight_fn(&consensus);
        let mut mds: Vec<MdEntry> = Vec::new();
        let mut slot_of: Vec<usize> = Vec::new();
        let n = consensus.routers.len();
        let mut i: usize = 0;
        while i < n
            invariant
                n == consensus.routers@.len(),
                i <= n,
                mds@.len() <= i,
                table_wf(consensus.routers@.take(i as int), mds@, slot_of@),
                forall|j: int| 0 <= j < mds@.len() ==> (#[trigger] mds@[j]).md is None,
            decreases n - i,
        {
            let d = consensus.routers[i].md_digest;
            let ghost routers_before = consensus.routers@.take(i as int);
            let ghost routers_after = consensus.routers@.take(i + 1);
            let ghost mds_before = mds@;
            let ghost slot_before = slot_of@;
            let found = find_slot(&mds, &d);
            match found {
                Some(j) => {
                    slot_of.push(j);
                },
                None => {
                    slot_of.push(mds.len());
                    mds.push(MdEntry { digest: d, md: None });
                },
            }
            proof {
                let mds_after = mds@;
                let slot_after = slot_of@;
                assert(routers_after[i as int].md_digest == d);
                assert forall|k: int| 0 <= k < i implies routers_after[k] == routers_before[k]
                    && slot_after[k] == slot_before[k] by {}
                assert forall|k: int| 0 <= k < mds_before.len() implies mds_after[k]
                    == mds_before[k] by {}
                assert forall|j: int| 0 <= j < mds_after.len() implies #[trigger] slot_used(
                    slot_after,
                    j,
                ) by {
                    if j < mds_before.len() {
                        assert(slot_used(slot_before, j));
                        let k = choose|k: int|
                            0 <= k < slot_before.len() && (#[trigger] slot_before[k]) == j;
                        assert(slot_after[k] == j);
                    } else {
                        assert(slot_after[i as int] == j);
                    }
                }
                assert forall|j: int, k: int|
                    0 <= j < mds_after.len() && 0 <= k < mds_after.len() && (
                    #[trigger] mds_after[j]).digest == (#[trigger] mds_after[k]).digest implies j
                    == k by {
                    if found is None {
                        if j == mds_before.len() && k < mds_before.len() {
                            assert(mds_before[k].digest == d);
                        }
                        if k == mds_before.len() && j < mds_before.len() {
                            assert(mds_before[j].digest == d);
                        }
                    }
                }
                assert(table_wf(routers_after, mds_after, slot_after));
            }
            i += 1;
        }
        assert(consensus.routers@.take(i as int) =~= consensus.routers@);
        let netdir = NetDir { consensus, mds, slot_of, weight_fn };
        proof {
            netdir.lemma_view();
            assert forall|d: MdDigest| netdir@.mds.contains_key(d) implies netdir@.mds[d] is None by {
                let j = slot_index(netdir.mds@, d);
                assert(netdir.mds@[j].md is None);
            }
        }
        PartialNetDir { netdir }
    }

    /// If this directory has enough information to build multihop
    /// circuits, return it. If not, the partial directory comes back as it
    /// was, and more microdescriptors can be added to it.
    pub fn unwrap_if_sufficient(self) -> (r: Result<NetDir, PartialNetDir>)
        ensures
            match r {
                Ok(netdir) => self@.enough_paths() && netdir == self.spec_netdir() && netdir@
                    == self@,
                Err(partial) => !self@.enough_paths() && partial == self,
            },
    {
        if self.netdir.have_enough_paths() {
            Ok(self.netdir)
        } else {
            Err(self)
        }
    }
}

impl Clone for PartialNetDir {
    fn clone(&self) -> (r: Self) {
        PartialNetDir { netdir: self.netdir.clone() }
    }
}

impl MDReceiver for PartialNetDir {
    open spec fn dir(&self) -> NetDirView {
        self@
    }

    fn missing_microdescs(&self) -> (r: Vec<MdDigest>) {
        self.netdir.missing_microdescs()
    }

    fn add_microdesc(&mut self, md: Microdesc) -> (r: bool) {
        self.netdir.add_microdesc(md)
    }
}

} // verus!
