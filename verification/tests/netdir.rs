use netdir_core::doc::{
    MdConsensus, MdDigest, Microdesc, PortPolicy, PortRange, ProtoKind, Protocols, RelayAddr,
    RelayFlags, RouterStatus, RouterWeight,
};
use netdir_core::linkspec::{ChanTarget, CircTarget};
use netdir_core::netdir::{MDReceiver, NetDir, PartialNetDir};
use netdir_core::relay::{Relay, UncheckedRelay};
use netdir_core::weight::{pick_weight_fn, WeightFn};
use rand::rngs::StdRng;
use rand::SeedableRng;

fn digest(n: u8) -> MdDigest {
    [n; 32]
}

fn router(n: u8, weight: RouterWeight) -> RouterStatus {
    RouterStatus {
        rsa_identity: [n; 20],
        md_digest: digest(n),
        weight,
        flags: RelayFlags { bad_exit: false, v2dir: false, no_ed_consensus: false },
        protovers: Protocols::new(),
        addrs: vec![RelayAddr::V4([10, 0, 0, n], 9001)],
    }
}

fn microdesc(n: u8) -> Microdesc {
    Microdesc {
        digest: digest(n),
        ed25519_id: [n.wrapping_add(100); 32],
        ntor_onion_key: [n.wrapping_add(200); 32],
        ipv4_policy: PortPolicy { allowed: vec![PortRange { lo: 80, hi: 80 }] },
    }
}

fn consensus(weights: &[RouterWeight]) -> MdConsensus {
    let mut routers = Vec::new();
    for (i, w) in weights.iter().enumerate() {
        routers.push(router(i as u8 + 1, *w));
    }
    MdConsensus { routers }
}

fn full_dir(weights: &[RouterWeight]) -> NetDir {
    let mut partial = PartialNetDir::new(consensus(weights));
    for i in 0..weights.len() {
        assert!(partial.add_microdesc(microdesc(i as u8 + 1)));
    }
    match partial.unwrap_if_sufficient() {
        Ok(dir) => dir,
        Err(_) => panic!("a complete directory with weight was not sufficient"),
    }
}

#[test]
fn fresh_directory_misses_every_digest() {
    let ws = [RouterWeight::Unmeasured(10); 4];
    let mut partial = PartialNetDir::new(consensus(&ws));
    assert_eq!(partial.missing_microdescs(), vec![digest(1), digest(2), digest(3), digest(4)]);
    // Any other digest is turned away, and nothing changes.
    assert!(!partial.add_microdesc(microdesc(5)));
    assert!(!partial.add_microdesc(microdesc(0)));
    assert_eq!(partial.missing_microdescs(), vec![digest(1), digest(2), digest(3), digest(4)]);
}

#[test]
fn adding_a_wanted_microdesc_fills_its_place() {
    let ws = [RouterWeight::Unmeasured(10); 4];
    let mut partial = PartialNetDir::new(consensus(&ws));
    assert!(partial.add_microdesc(microdesc(3)));
    assert_eq!(partial.missing_microdescs(), vec![digest(1), digest(2), digest(4)]);
    assert!(partial.add_microdesc(microdesc(1)));
    assert_eq!(partial.missing_microdescs(), vec![digest(2), digest(4)]);
    // The list is made anew on each call.
    assert_eq!(partial.missing_microdescs(), vec![digest(2), digest(4)]);
    // Adding the same one again is accepted and changes nothing in the list.
    assert!(partial.add_microdesc(microdesc(3)));
    assert_eq!(partial.missing_microdescs(), vec![digest(2), digest(4)]);
}

#[test]
fn three_of_four_equal_relays_are_enough() {
    let ws = [RouterWeight::Unmeasured(10); 4];
    let mut partial = PartialNetDir::new(consensus(&ws));
    assert!(partial.add_microdesc(microdesc(1)));
    assert!(partial.add_microdesc(microdesc(2)));
    assert!(partial.add_microdesc(microdesc(3)));
    let dir = match partial.unwrap_if_sufficient() {
        Ok(dir) => dir,
        Err(_) => panic!("30 of 40 should be enough"),
    };
    assert_eq!(dir.weight_fn(), WeightFn::IncludeUnmeasured);
    assert_eq!(dir.relays().len(), 3);
    assert_eq!(dir.missing_microdescs(), vec![digest(4)]);
    assert!(dir.have_enough_paths());
}

#[test]
fn exactly_half_is_not_enough() {
    let ws = [RouterWeight::Unmeasured(10); 4];
    let mut partial = PartialNetDir::new(consensus(&ws));
    assert!(partial.add_microdesc(microdesc(1)));
    assert!(partial.add_microdesc(microdesc(2)));
    // 20 is not more than 40 / 2.
    let mut partial = match partial.unwrap_if_sufficient() {
        Ok(_) => panic!("20 of 40 should not be enough"),
        Err(p) => p,
    };
    // The partial directory comes back with what it had.
    assert_eq!(partial.missing_microdescs(), vec![digest(3), digest(4)]);
    assert!(partial.add_microdesc(microdesc(4)));
    assert!(partial.unwrap_if_sufficient().is_ok());
}

#[test]
fn half_is_rounded_down() {
    // Total 5, half rounded down is 2: a usable weight of 3 is enough.
    let ws = [RouterWeight::Unmeasured(3), RouterWeight::Unmeasured(2)];
    let mut partial = PartialNetDir::new(consensus(&ws));
    assert!(partial.add_microdesc(microdesc(2)));
    let mut partial = match partial.unwrap_if_sufficient() {
        Ok(_) => panic!("2 of 5 should not be enough"),
        Err(p) => p,
    };
    assert!(partial.add_microdesc(microdesc(1)));
    assert!(partial.unwrap_if_sufficient().is_ok());
    // Total 1: half rounded down is 0, and the one relay is enough.
    let mut partial = PartialNetDir::new(consensus(&[RouterWeight::Unmeasured(1)]));
    assert!(partial.add_microdesc(microdesc(1)));
    assert!(partial.unwrap_if_sufficient().is_ok());
}

#[test]
fn empty_consensus_is_never_enough() {
    let partial = PartialNetDir::new(MdConsensus { routers: Vec::new() });
    assert!(partial.missing_microdescs().is_empty());
    assert!(partial.unwrap_if_sufficient().is_err());
}

#[test]
fn complete_directory_is_sufficient() {
    let ws = [
        RouterWeight::Measured(7),
        RouterWeight::Unmeasured(1000),
        RouterWeight::Measured(0),
        RouterWeight::Absent,
    ];
    let dir = full_dir(&ws);
    assert!(dir.missing_microdescs().is_empty());
    assert_eq!(dir.relays().len(), 4);
    assert_eq!(dir.weight_fn(), WeightFn::MeasuredOnly);
}

#[test]
fn complete_directory_without_weight_is_not_sufficient() {
    // A measured bandwidth of 0 beside an unmeasured one: only measured
    // bandwidths count, and they sum to nothing.
    let ws = [RouterWeight::Measured(0), RouterWeight::Unmeasured(10)];
    let mut partial = PartialNetDir::new(consensus(&ws));
    assert!(partial.add_microdesc(microdesc(1)));
    assert!(partial.add_microdesc(microdesc(2)));
    assert!(partial.missing_microdescs().is_empty());
    assert!(partial.unwrap_if_sufficient().is_err());
}

#[test]
fn relay_with_unusable_identity_does_not_count() {
    let mut c = consensus(&[RouterWeight::Unmeasured(10), RouterWeight::Unmeasured(10)]);
    c.routers[0].flags.no_ed_consensus = true;
    let mut partial = PartialNetDir::new(c);
    assert!(partial.add_microdesc(microdesc(1)));
    assert!(partial.add_microdesc(microdesc(2)));
    assert!(partial.missing_microdescs().is_empty());
    // Usable weight 10 of 20.
    assert!(partial.unwrap_if_sufficient().is_err());

    let mut c = consensus(&[RouterWeight::Unmeasured(10), RouterWeight::Unmeasured(11)]);
    c.routers[0].flags.no_ed_consensus = true;
    let mut partial = PartialNetDir::new(c);
    assert!(partial.add_microdesc(microdesc(1)));
    assert!(partial.add_microdesc(microdesc(2)));
    let dir = match partial.unwrap_if_sufficient() {
        Ok(d) => d,
        Err(_) => panic!("11 of 21 should be enough"),
    };
    let relays = dir.relays();
    assert_eq!(relays.len(), 1);
    assert_eq!(relays[0].rsa_id(), &[2u8; 20]);
    let all = dir.all_relays();
    assert_eq!(all.len(), 2);
    assert!(all[0].has_md());
    assert!(!all[0].is_usable());
    assert!(all[1].is_usable());
}

#[test]
fn shared_digest_has_one_place() {
    let mut c = consensus(&[RouterWeight::Unmeasured(1); 3]);
    c.routers[2].md_digest = digest(1);
    let mut partial = PartialNetDir::new(c);
    assert_eq!(partial.missing_microdescs(), vec![digest(1), digest(2), digest(1)]);
    assert!(!partial.add_microdesc(microdesc(3)));
    assert!(partial.add_microdesc(microdesc(1)));
    assert_eq!(partial.missing_microdescs(), vec![digest(2)]);
    let dir = match partial.unwrap_if_sufficient() {
        Ok(d) => d,
        Err(_) => panic!("2 of 3 should be enough"),
    };
    let relays = dir.relays();
    assert_eq!(relays.len(), 2);
    assert_eq!(relays[0].rsa_id(), &[1u8; 20]);
    assert_eq!(relays[1].rsa_id(), &[3u8; 20]);
    assert_eq!(relays[0].id(), relays[1].id());
    assert!(!relays[0].same_relay(&relays[1]));
}

#[test]
fn adding_again_replaces_the_microdesc() {
    let mut partial = PartialNetDir::new(consensus(&[RouterWeight::Unmeasured(1)]));
    assert!(partial.add_microdesc(microdesc(1)));
    let mut other = microdesc(1);
    other.ed25519_id = [77; 32];
    assert!(partial.add_microdesc(other));
    let dir = match partial.unwrap_if_sufficient() {
        Ok(d) => d,
        Err(_) => panic!("should be enough"),
    };
    assert_eq!(dir.relays()[0].id(), &[77u8; 32]);
}

#[test]
fn netdir_also_receives_microdescs() {
    let ws = [RouterWeight::Unmeasured(10); 4];
    let mut partial = PartialNetDir::new(consensus(&ws));
    for n in 1..=3 {
        assert!(partial.add_microdesc(microdesc(n)));
    }
    let mut dir = match partial.unwrap_if_sufficient() {
        Ok(d) => d,
        Err(_) => panic!("should be enough"),
    };
    assert_eq!(dir.missing_microdescs(), vec![digest(4)]);
    assert!(!dir.add_microdesc(microdesc(9)));
    assert!(dir.add_microdesc(microdesc(4)));
    assert!(dir.missing_microdescs().is_empty());
    assert_eq!(dir.relays().len(), 4);
    assert_eq!(dir.consensus().routers.len(), 4);
}

#[test]
fn weight_rule_follows_the_consensus() {
    // No bandwidth other than 0: uniform.
    let c = consensus(&[RouterWeight::Unmeasured(0), RouterWeight::Measured(0), RouterWeight::Absent]);
    assert_eq!(pick_weight_fn(&c), WeightFn::Uniform);
    assert_eq!(pick_weight_fn(&MdConsensus { routers: Vec::new() }), WeightFn::Uniform);
    // Bandwidths, none measured.
    let c = consensus(&[RouterWeight::Unmeasured(0), RouterWeight::Unmeasured(5)]);
    assert_eq!(pick_weight_fn(&c), WeightFn::IncludeUnmeasured);
    // At least one measured.
    let c = consensus(&[RouterWeight::Unmeasured(9), RouterWeight::Measured(5)]);
    assert_eq!(pick_weight_fn(&c), WeightFn::MeasuredOnly);
    let c = consensus(&[RouterWeight::Unmeasured(9), RouterWeight::Measured(0)]);
    assert_eq!(pick_weight_fn(&c), WeightFn::MeasuredOnly);
}

#[test]
fn weight_rule_applies_to_each_bandwidth() {
    let all = [RouterWeight::Absent, RouterWeight::Unmeasured(7), RouterWeight::Measured(9)];
    let got: Vec<u32> = all.iter().map(|w| WeightFn::Uniform.apply(w)).collect();
    assert_eq!(got, vec![1, 1, 1]);
    let got: Vec<u32> = all.iter().map(|w| WeightFn::IncludeUnmeasured.apply(w)).collect();
    assert_eq!(got, vec![0, 7, 9]);
    let got: Vec<u32> = all.iter().map(|w| WeightFn::MeasuredOnly.apply(w)).collect();
    assert_eq!(got, vec![0, 0, 9]);
    assert_eq!(WeightFn::MeasuredOnly.apply(&RouterWeight::Measured(u32::MAX)), u32::MAX);
}

#[test]
fn unmeasured_relays_weigh_nothing_beside_measured_ones() {
    let ws = [RouterWeight::Unmeasured(1000), RouterWeight::Measured(5), RouterWeight::Measured(6)];
    let mut partial = PartialNetDir::new(consensus(&ws));
    // The unmeasured relay alone carries no weight.
    assert!(partial.add_microdesc(microdesc(1)));
    let mut partial = match partial.unwrap_if_sufficient() {
        Ok(_) => panic!("weight 0 of 11 should not be enough"),
        Err(p) => p,
    };
    assert!(partial.add_microdesc(microdesc(3)));
    let dir = match partial.unwrap_if_sufficient() {
        Ok(d) => d,
        Err(_) => panic!("6 of 11 should be enough"),
    };
    let relays = dir.relays();
    assert_eq!(relays.len(), 2);
    assert_eq!(relays[0].weight(dir.weight_fn()), 0);
    assert_eq!(relays[1].weight(dir.weight_fn()), 6);
}

#[test]
fn pick_relay_with_no_weight_gives_nothing() {
    let dir = full_dir(&[RouterWeight::Unmeasured(10); 3]);
    let mut rng = StdRng::seed_from_u64(1);
    for _ in 0..100 {
        assert!(dir.pick_relay(&mut rng, |_, _| 0).is_none());
    }
}

#[test]
fn pick_relay_finds_the_only_relay_with_weight() {
    let dir = full_dir(&[RouterWeight::Unmeasured(10); 3]);
    let mut rng = StdRng::seed_from_u64(2);
    for _ in 0..200 {
        let r = dir.pick_relay(&mut rng, |r: &Relay<'_>, w| if r.rsa_id()[0] == 2 { w } else { 0 });
        match r {
            Some(relay) => assert_eq!(relay.rsa_id(), &[2u8; 20]),
            None => panic!("a relay has weight"),
        }
    }
    // The same under the measured-only rule: base weights are 0, 5, 0.
    let dir = full_dir(&[
        RouterWeight::Unmeasured(10),
        RouterWeight::Measured(5),
        RouterWeight::Absent,
    ]);
    for _ in 0..200 {
        match dir.pick_relay(&mut rng, |_, w| w) {
            Some(relay) => assert_eq!(relay.rsa_id(), &[2u8; 20]),
            None => panic!("a relay has weight"),
        }
    }
}

#[test]
fn pick_relay_skips_relays_that_cannot_be_used() {
    let ws = [RouterWeight::Unmeasured(1), RouterWeight::Unmeasured(100)];
    let mut partial = PartialNetDir::new(consensus(&ws));
    assert!(partial.add_microdesc(microdesc(2)));
    let dir = match partial.unwrap_if_sufficient() {
        Ok(d) => d,
        Err(_) => panic!("should be enough"),
    };
    let mut rng = StdRng::seed_from_u64(3);
    for _ in 0..100 {
        match dir.pick_relay(&mut rng, |_, _| 1) {
            Some(relay) => assert_eq!(relay.rsa_id(), &[2u8; 20]),
            None => panic!("a relay has weight"),
        }
    }
}

#[test]
fn pick_relay_follows_the_weights() {
    let dir = full_dir(&[
        RouterWeight::Unmeasured(1),
        RouterWeight::Unmeasured(2),
        RouterWeight::Unmeasured(3),
    ]);
    let mut rng = StdRng::seed_from_u64(2024);
    let mut counts = [0u32; 3];
    let trials = 60_000;
    for _ in 0..trials {
        match dir.pick_relay(&mut rng, |_, w| w) {
            Some(relay) => counts[relay.rsa_id()[0] as usize - 1] += 1,
            None => panic!("a relay has weight"),
        }
    }
    // Expected 10000, 20000, 30000; five standard deviations are under 650.
    assert!((9_350..=10_650).contains(&counts[0]), "{:?}", counts);
    assert!((19_350..=20_650).contains(&counts[1]), "{:?}", counts);
    assert!((29_350..=30_650).contains(&counts[2]), "{:?}", counts);
}

#[test]
fn pick_relay_is_reproducible_under_a_seed() {
    let dir = full_dir(&[RouterWeight::Measured(5); 20]);
    let mut a = StdRng::seed_from_u64(11);
    let mut b = StdRng::seed_from_u64(11);
    let mut distinct = std::collections::HashSet::new();
    for _ in 0..50 {
        let ra = dir.pick_relay(&mut a, |_, w| w).map(|r| *r.rsa_id());
        let rb = dir.pick_relay(&mut b, |_, w| w).map(|r| *r.rsa_id());
        assert_eq!(ra, rb);
        distinct.insert(ra);
    }
    assert!(distinct.len() > 1);
}

#[test]
fn pick_relay_passes_the_base_weight_to_reweight() {
    let dir = full_dir(&[RouterWeight::Measured(5), RouterWeight::Unmeasured(8)]);
    let mut rng = StdRng::seed_from_u64(4);
    let seen = std::cell::RefCell::new(Vec::new());
    let _ = dir.pick_relay(&mut rng, |r: &Relay<'_>, w| {
        seen.borrow_mut().push((r.rsa_id()[0], w));
        w
    });
    assert_eq!(*seen.borrow(), vec![(1, 5), (2, 0)]);
}

#[test]
fn relay_from_rs_looks_the_microdesc_up() {
    let ws = [RouterWeight::Unmeasured(10); 2];
    let mut partial = PartialNetDir::new(consensus(&ws));
    assert!(partial.add_microdesc(microdesc(1)));
    assert!(partial.add_microdesc(microdesc(2)));
    let mut dir = match partial.unwrap_if_sufficient() {
        Ok(d) => d,
        Err(_) => panic!("should be enough"),
    };
    let known = router(2, RouterWeight::Absent);
    let unknown = router(9, RouterWeight::Absent);
    {
        let r = dir.relay_from_rs(&known);
        assert!(r.is_usable());
        assert_eq!(r.md().map(|m| m.digest), Some(digest(2)));
        assert_eq!(r.rs().rsa_identity, [2u8; 20]);
        let r = dir.relay_from_rs(&unknown);
        assert!(!r.has_md());
        assert!(r.into_relay().is_none());
    }
    assert!(!dir.add_microdesc(microdesc(9)));
}

#[test]
fn unchecked_relay_becomes_a_relay_only_if_usable() {
    let rs = router(1, RouterWeight::Absent);
    let md = microdesc(1);
    assert!(UncheckedRelay::new(&rs, Some(&md)).is_usable());
    assert!(UncheckedRelay::new(&rs, Some(&md)).into_relay().is_some());
    assert!(!UncheckedRelay::new(&rs, None).is_usable());
    assert!(UncheckedRelay::new(&rs, None).into_relay().is_none());
    let mut bad = router(1, RouterWeight::Absent);
    bad.flags.no_ed_consensus = true;
    assert!(!bad.ed25519_id_is_usable());
    assert!(!UncheckedRelay::new(&bad, Some(&md)).is_usable());
    assert!(UncheckedRelay::new(&bad, Some(&md)).into_relay().is_none());
}

#[test]
fn relay_predicates() {
    let mut rs = router(1, RouterWeight::Measured(3));
    rs.flags.v2dir = true;
    rs.protovers = Protocols::new().with(ProtoKind::DirCache, 2).with(ProtoKind::Link, 4);
    let mut md = microdesc(1);
    md.ipv4_policy =
        PortPolicy { allowed: vec![PortRange { lo: 80, hi: 80 }, PortRange { lo: 443, hi: 500 }] };
    let relay = UncheckedRelay::new(&rs, Some(&md)).into_relay().unwrap();
    assert!(relay.is_dir_cache());
    assert!(relay.supports_exit_port(80));
    assert!(relay.supports_exit_port(443));
    assert!(relay.supports_exit_port(500));
    assert!(!relay.supports_exit_port(501));
    assert!(!relay.supports_exit_port(81));
    assert!(!relay.supports_exit_port(0));
    assert_eq!(relay.weight(WeightFn::MeasuredOnly), 3);
    assert_eq!(relay.weight(WeightFn::Uniform), 1);
    assert_eq!(relay.id(), &md.ed25519_id);
    assert_eq!(relay.ed_identity(), &md.ed25519_id);
    assert_eq!(relay.rsa_identity(), &[1u8; 20]);
    assert_eq!(relay.ntor_onion_key(), &md.ntor_onion_key);
    assert_eq!(relay.addrs(), &[RelayAddr::V4([10, 0, 0, 1], 9001)]);
    assert!(relay.protovers().supports_known_subver(ProtoKind::Link, 4));
    assert_eq!(relay.md().digest, digest(1));
    assert_eq!(relay.rs().weight, RouterWeight::Measured(3));

    // A bad exit exits nowhere.
    let mut bad = router(1, RouterWeight::Absent);
    bad.flags.bad_exit = true;
    let relay = UncheckedRelay::new(&bad, Some(&md)).into_relay().unwrap();
    assert!(!relay.supports_exit_port(80));
    assert!(!relay.is_dir_cache());

    // Flagged as a directory server, but without the subprotocol version.
    let mut old = router(1, RouterWeight::Absent);
    old.flags.v2dir = true;
    old.protovers = Protocols::new().with(ProtoKind::DirCache, 1);
    let relay = UncheckedRelay::new(&old, Some(&md)).into_relay().unwrap();
    assert!(!relay.is_dir_cache());
    // The subprotocol version without the flag.
    let mut unflagged = router(1, RouterWeight::Absent);
    unflagged.protovers = Protocols::new().with(ProtoKind::DirCache, 2);
    let relay = UncheckedRelay::new(&unflagged, Some(&md)).into_relay().unwrap();
    assert!(!relay.is_dir_cache());
}

#[test]
fn same_relay_needs_both_identities() {
    let rs1 = router(1, RouterWeight::Absent);
    let rs2 = router(2, RouterWeight::Absent);
    let md1 = microdesc(1);
    let md2 = microdesc(2);
    let a = UncheckedRelay::new(&rs1, Some(&md1)).into_relay().unwrap();
    let b = UncheckedRelay::new(&rs1, Some(&md1)).into_relay().unwrap();
    let c = UncheckedRelay::new(&rs1, Some(&md2)).into_relay().unwrap();
    let d = UncheckedRelay::new(&rs2, Some(&md1)).into_relay().unwrap();
    assert!(a.same_relay(&b));
    assert!(a.same_relay(&a));
    assert!(!a.same_relay(&c));
    assert!(!a.same_relay(&d));
    assert!(!c.same_relay(&d));
}

#[test]
fn a_clone_holds_what_the_directory_holds() {
    let ws = [RouterWeight::Measured(10); 4];
    let mut partial = PartialNetDir::new(consensus(&ws));
    assert!(partial.add_microdesc(microdesc(2)));
    assert!(partial.add_microdesc(microdesc(3)));
    let mut copy = partial.clone();
    assert_eq!(copy.missing_microdescs(), vec![digest(1), digest(4)]);
    // The two are independent of one another.
    assert!(copy.add_microdesc(microdesc(1)));
    assert_eq!(partial.missing_microdescs(), vec![digest(1), digest(4)]);
    assert!(partial.unwrap_if_sufficient().is_err());
    let dir = match copy.unwrap_if_sufficient() {
        Ok(d) => d,
        Err(_) => panic!("30 of 40 should be enough"),
    };
    let again = dir.clone();
    assert_eq!(again.weight_fn(), WeightFn::MeasuredOnly);
    assert_eq!(again.missing_microdescs(), vec![digest(4)]);
    let ids: Vec<u8> = again.relays().iter().map(|r| r.rsa_id()[0]).collect();
    assert_eq!(ids, vec![1, 2, 3]);
    assert_eq!(again.relays()[0].id(), dir.relays()[0].id());
}
