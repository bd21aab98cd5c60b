//! What holds of every directory, stated over [`NetDirView`] and proved.
//!
//! The functions of [`crate::netdir`] say in their contracts what one call
//! does. The proof functions here say what follows for a directory as it is
//! filled: which digests are missing at each point, that nothing gets lost,
//! and when the directory is good enough to be used.

use crate::doc::{MdDigest, Microdesc};
use crate::netdir::NetDirView;
use vstd::prelude::*;

verus! {

/// The summed weight of those of the first `n` relays whose identity can be
/// relied on, whether their microdescriptor is here or not.
pub open spec fn trusted_bw(v: NetDirView, n: int) -> int
    decreases n,
{
    if n <= 0 {
        0
    } else if v.routers[n - 1].spec_ed25519_id_is_usable() {
        trusted_bw(v, n - 1) + v.base_weight(n - 1)
    } else {
        trusted_bw(v, n - 1)
    }
}

/// A digest is listed as missing exactly if some relay names it and no
/// microdescriptor is held for that relay.
pub proof fn law_missing_lists_empty_places(v: NetDirView, n: int, d: MdDigest)
    requires
        0 <= n <= v.routers.len(),
    ensures
        v.missing(n).contains(d) <==> exists|i: int|
            0 <= i < n && (#[trigger] v.routers[i]).md_digest == d && v.md_of(i) is None,
    decreases n,
{
    if n > 0 {
        law_missing_lists_empty_places(v, n - 1, d);
        let prev = v.missing(n - 1);
        let here = v.routers[n - 1].md_digest;
        if v.md_of(n - 1) is None {
            let now = prev.push(here);
            assert(now == v.missing(n));
            if now.contains(d) {
                let k = choose|k: int| 0 <= k < now.len() && now[k] == d;
                if k < prev.len() {
                    assert(prev[k] == d);
                    assert(prev.contains(d));
                } else {
                    assert(v.routers[n - 1].md_digest == d);
                }
            }
            if prev.contains(d) {
                let k = choose|k: int| 0 <= k < prev.len() && prev[k] == d;
                assert(now[k] == d);
            }
            if here == d {
                assert(now[prev.len() as int] == d);
            }
        }
    }
}

/// Where no microdescriptor has arrived, the missing digests are those of
/// the relays, one for one.
pub proof fn law_nothing_added_all_missing(v: NetDirView, n: int)
    requires
        v.valid(),
        v.is_empty(),
        0 <= n <= v.routers.len(),
    ensures
        v.missing(n).len() == n,
        forall|i: int| 0 <= i < n ==> (#[trigger] v.missing(n)[i]) == v.routers[i].md_digest,
    decreases n,
{
    if n > 0 {
        law_nothing_added_all_missing(v, n - 1);
        assert(v.wanted(v.routers[n - 1].md_digest));
        assert(v.md_of(n - 1) is None);
    }
}

/// Right after a directory was made from a consensus, every digest that the
/// consensus names is missing, and a microdescriptor with any other digest
/// is turned away.
pub proof fn law_fresh_directory(v: NetDirView, md: Microdesc)
    requires
        v.valid(),
        v.is_empty(),
    ensures
        v.wanted(md.digest) ==> v.all_missing().contains(md.digest),
        !v.wanted(md.digest) ==> !v.all_missing().contains(md.digest) && v.add(md) == v,
{
    let n = v.routers.len() as int;
    law_missing_lists_empty_places(v, n, md.digest);
    if v.wanted(md.digest) {
        let i = choose|i: int| 0 <= i < n && (#[trigger] v.routers[i]).md_digest == md.digest;
        assert(v.md_of(i) is None);
    }
}

/// Offering a microdescriptor keeps a directory valid. It changes neither
/// the relays nor the weighting rule nor the set of digests in the table,
/// and no place that was filled becomes empty.
pub proof fn law_add_keeps_what_is_there(v: NetDirView, md: Microdesc)
    requires
        v.valid(),
    ensures
        v.add(md).valid(),
        v.add(md).routers == v.routers,
        v.add(md).weight_fn == v.weight_fn,
        v.add(md).mds.dom() == v.mds.dom(),
        forall|d: MdDigest|
            v.mds.contains_key(d) && v.mds[d] is Some ==> (#[trigger] v.add(md).mds[d]) is Some,
        forall|d: MdDigest| d != md.digest ==> (#[trigger] v.add(md).mds[d]) == v.mds[d],
        !v.wanted(md.digest) ==> v.add(md) == v,
        v.wanted(md.digest) ==> v.add(md).mds[md.digest] == Some(md),
{
    let w = v.add(md);
    assert(w.mds.dom() =~= v.mds.dom());
    assert forall|d: MdDigest| w.mds.contains_key(d) <==> w.wanted(d) by {
        assert(w.mds.contains_key(d) == v.mds.contains_key(d));
        assert(w.wanted(d) == v.wanted(d));
    }
}

/// Once a wanted microdescriptor was added, its digest is no longer
/// missing, and every other digest is missing exactly if it was before.
pub proof fn law_add_fills_the_place(v: NetDirView, md: Microdesc, d: MdDigest)
    requires
        v.valid(),
        v.wanted(md.digest),
    ensures
        !v.add(md).all_missing().contains(md.digest),
        d != md.digest ==> (v.add(md).all_missing().contains(d) <==> v.all_missing().contains(d)),
{
    let w = v.add(md);
    let n = v.routers.len() as int;
    law_missing_lists_empty_places(w, n, md.digest);
    law_missing_lists_empty_places(w, n, d);
    law_missing_lists_empty_places(v, n, d);
    assert forall|i: int| 0 <= i < n && (#[trigger] w.routers[i]).md_digest == md.digest implies w.md_of(
        i,
    ) is Some by {}
    if d != md.digest {
        assert forall|i: int| 0 <= i < n && (#[trigger] v.routers[i]).md_digest == d implies w.md_of(
            i,
        ) == v.md_of(i) by {}
        if v.all_missing().contains(d) {
            let i = choose|i: int|
                0 <= i < n && (#[trigger] v.routers[i]).md_digest == d && v.md_of(i) is None;
            assert(w.routers[i].md_digest == d && w.md_of(i) is None);
        }
        if w.all_missing().contains(d) {
            let i = choose|i: int|
                0 <= i < n && (#[trigger] w.routers[i]).md_digest == d && w.md_of(i) is None;
            assert(v.routers[i].md_digest == d && v.md_of(i) is None);
        }
    }
}

/// The usable relays never weigh more than all relays, and no sum of
/// weights is negative.
pub proof fn law_usable_within_total(v: NetDirView, n: int)
    requires
        0 <= n <= v.routers.len(),
    ensures
        0 <= v.usable_bw(n) <= trusted_bw(v, n) <= v.total_bw(n),
    decreases n,
{
    if n > 0 {
        law_usable_within_total(v, n - 1);
    }
}

/// A directory is good enough exactly if twice the weight of its usable
/// relays is more than the weight of all relays: rounding the half down
/// makes no difference.
pub proof fn law_enough_is_more_than_half(v: NetDirView)
    ensures
        v.enough_paths() <==> 2 * v.usable_bw(v.routers.len() as int) > v.total_bw(
            v.routers.len() as int,
        ),
{
    law_usable_within_total(v, v.routers.len() as int);
}

/// Offering a microdescriptor never lowers the weight of the usable relays,
/// and leaves the weight of all relays as it is.
pub proof fn law_add_never_lowers_usable(v: NetDirView, md: Microdesc, n: int)
    requires
        v.valid(),
        0 <= n <= v.routers.len(),
    ensures
        v.add(md).total_bw(n) == v.total_bw(n),
        v.add(md).usable_bw(n) >= v.usable_bw(n),
    decreases n,
{
    if n > 0 {
        law_add_never_lowers_usable(v, md, n - 1);
        let w = v.add(md);
        assert(w.base_weight(n - 1) == v.base_weight(n - 1));
        assert(v.is_usable(n - 1) ==> w.is_usable(n - 1));
    }
}

/// A directory that is good enough stays good enough, whatever is offered
/// to it afterwards.
pub proof fn law_enough_stays_enough(v: NetDirView, md: Microdesc)
    requires
        v.valid(),
        v.enough_paths(),
    ensures
        v.add(md).enough_paths(),
{
    law_add_never_lowers_usable(v, md, v.routers.len() as int);
}

/// Where every microdescriptor is here, nothing is missing, and a relay can
/// be used exactly if its identity can be relied on.
pub proof fn law_complete_directory(v: NetDirView, n: int)
    requires
        v.valid(),
        v.is_complete(),
        0 <= n <= v.routers.len(),
    ensures
        v.missing(n) == Seq::<MdDigest>::empty(),
        v.usable_bw(n) == trusted_bw(v, n),
    decreases n,
{
    if n > 0 {
        law_complete_directory(v, n - 1);
        assert(v.wanted(v.routers[n - 1].md_digest));
        assert(v.md_of(n - 1) is Some);
    }
}

/// A directory with every microdescriptor is good enough exactly if the
/// relays whose identity can be relied on carry more than half of the
/// weight.
pub proof fn law_complete_directory_enough(v: NetDirView)
    requires
        v.valid(),
        v.is_complete(),
    ensures
        v.all_missing() == Seq::<MdDigest>::empty(),
        v.enough_paths() <==> trusted_bw(v, v.routers.len() as int) > v.total_bw(
            v.routers.len() as int,
        ) / 2,
{
    law_complete_directory(v, v.routers.len() as int);
}

/// Where every identity can be relied on, the relays whose identity can be
/// relied on are all relays.
pub proof fn law_all_trusted(v: NetDirView, n: int)
    requires
        0 <= n <= v.routers.len(),
        forall|i: int|
            0 <= i < v.routers.len() ==> (#[trigger] v.routers[i]).spec_ed25519_id_is_usable(),
    ensures
        trusted_bw(v, n) == v.total_bw(n),
    decreases n,
{
    if n > 0 {
        law_all_trusted(v, n - 1);
    }
}

/// A directory with every microdescriptor, in which every identity can be
/// relied on and some relay has weight, is good enough.
pub proof fn law_complete_trusted_directory_is_enough(v: NetDirView)
    requires
        v.valid(),
        v.is_complete(),
        forall|i: int|
            0 <= i < v.routers.len() ==> (#[trigger] v.routers[i]).spec_ed25519_id_is_usable(),
        v.total_bw(v.routers.len() as int) > 0,
    ensures
        v.all_missing() == Seq::<MdDigest>::empty(),
        v.enough_paths(),
{
    let n = v.routers.len() as int;
    law_complete_directory(v, n);
    law_all_trusted(v, n);
}

} // verus!
