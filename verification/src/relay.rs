//! A relay as seen through a directory: its entry in the consensus together
//! with its microdescriptor. Such a value borrows from the directory and is
//! made anew for each query.

use crate::doc::{
    bytes_eq, Curve25519Public, Ed25519Identity, Microdesc, ProtoKind, Protocols, RelayAddr,
    RouterStatus, RsaIdentity,
};
use crate::linkspec::{ChanTarget, CircTarget};
use crate::weight::WeightFn;
use vstd::prelude::*;

verus! {

/// The two records that a [`Relay`] refers to.
pub struct RelayView {
    /// The entry of the relay in the consensus.
    pub rs: RouterStatus,
    /// The microdescriptor of the relay.
    pub md: Microdesc,
}

impl RelayView {
    /// True if both identities agree.
    pub open spec fn same_relay(self, other: RelayView) -> bool {
        self.md.ed25519_id == other.md.ed25519_id && self.rs.rsa_identity == other.rs.rsa_identity
    }

    /// True if the relay is not a bad exit and its IPv4 policy allows `port`.
    pub open spec fn supports_exit_port(self, port: u16) -> bool {
        !self.rs.flags.bad_exit && self.md.ipv4_policy.spec_allows_port(port)
    }

    /// True if the relay is flagged as a directory server and supports
    /// version 2 of the directory-cache subprotocol.
    pub open spec fn is_dir_cache(self) -> bool {
        self.rs.flags.v2dir && self.rs.protovers.spec_supports(ProtoKind::DirCache, 2)
    }
}

/// A relay that we haven't checked for validity or usability in routing.
pub struct UncheckedRelay<'a> {
    /// The consensus entry for this relay.
    rs: &'a RouterStatus,
    /// A microdescriptor for this relay, if there is one.
    md: Option<&'a Microdesc>,
}

impl<'a> UncheckedRelay<'a> {
    /// The consensus entry for this relay.
    pub closed spec fn spec_rs(&self) -> RouterStatus {
        *self.rs
    }

    /// The microdescriptor for this relay, if there is one.
    pub closed spec fn spec_md(&self) -> Option<Microdesc> {
        match self.md {
            Some(md) => Some(*md),
            None => None,
        }
    }

    /// True if the microdescriptor is here and the identity can be relied on.
    pub open spec fn spec_is_usable(&self) -> bool {
        self.spec_md() is Some && self.spec_rs().spec_ed25519_id_is_usable()
    }

    /// Put a consensus entry and the microdescriptor found for it together.
    pub fn new(rs: &'a RouterStatus, md: Option<&'a Microdesc>) -> (r: Self)
        ensures
            r.spec_rs() == *rs,
            r.spec_md() == (match md {
                Some(m) => Some(*m),
                None => None,
            }),
    {
        UncheckedRelay { rs, md }
    }

    /// Return the consensus entry for this relay.
    pub fn rs(&self) -> (r: &'a RouterStatus)
        ensures
            *r == self.spec_rs(),
    {
        self.rs
    }

    /// Return the microdescriptor for this relay, if there is one.
    pub fn md(&self) -> (r: Option<&'a Microdesc>)
        ensures
            match r {
                Some(md) => self.spec_md() == Some(*md),
                None => self.spec_md() is None,
            },
    {
        self.md
    }

    /// Return true if the microdescriptor of this relay is here.
    pub fn has_md(&self) -> (r: bool)
        ensures
            r == (self.spec_md() is Some),
    {
        self.md.is_some()
    }

    /// Return true if this relay is valid and usable.
    ///
    /// This function returns `true` for every Relay that is handed out.
    #[verifier::when_used_as_spec(spec_is_usable)]
    pub fn is_usable(&self) -> (r: bool)
        ensures
            r == self.spec_is_usable(),
    {
        // No need to check for 'valid' or 'running': they are implicit.
        self.md.is_some() && self.rs.ed25519_id_is_usable()
    }

    /// If this is usable, return a corresponding Relay object.
    pub fn into_relay(self) -> (r: Option<Relay<'a>>)
        ensures
            match r {
                Some(relay) => self.spec_is_usable() && relay@ == (RelayView {
                    rs: self.spec_rs(),
                    md: self.spec_md().unwrap(),
                }),
                None => !self.spec_is_usable(),
            },
    {
        match self.md {
            Some(md) => {
                if self.rs.ed25519_id_is_usable() {
                    Some(Relay { rs: self.rs, md })
                } else {
                    None
                }
            },
            None => None,
        }
    }
}

/// A view of a relay on the network, suitable for building circuits.
pub struct Relay<'a> {
    /// The consensus entry for this relay.
    rs: &'a RouterStatus,
    /// The microdescriptor for this relay.
    md: &'a Microdesc,
}

impl<'a> View for Relay<'a> {
    type V = RelayView;

    closed spec fn view(&self) -> RelayView {
        RelayView { rs: *self.rs, md: *self.md }
    }
}

impl<'a> Relay<'a> {
    /// Two relays that refer to the same records are the same value.
    pub proof fn lemma_view_determines(self, other: Relay<'a>)
        requires
            self@ == other@,
        ensures
            self == other,
    {
    }

    /// Return the consensus entry for this relay.
    pub fn rs(&self) -> (r: &'a RouterStatus)
        ensures
            *r == self@.rs,
    {
        self.rs
    }

    /// Return the microdescriptor for this relay.
    pub fn md(&self) -> (r: &'a Microdesc)
        ensures
            *r == self@.md,
    {
        self.md
    }

    /// Return the Ed25519 ID for this relay.
    pub fn id(&self) -> (r: &Ed25519Identity)
        ensures
            *r == self@.md.ed25519_id,
    {
        &self.md.ed25519_id
    }

    /// Return the fingerprint of the RSA identity for this relay.
    pub fn rsa_id(&self) -> (r: &RsaIdentity)
        ensures
            *r == self@.rs.rsa_identity,
    {
        &self.rs.rsa_identity
    }

    /// Return true if this relay and `other` seem to be the same relay.
    ///
    /// (Two relays are the same if they have the same identity.)
    pub fn same_relay<'b>(&self, other: &Relay<'b>) -> (r: bool)
        ensures
            r == self@.same_relay(other@),
    {
        bytes_eq(self.id(), other.id()) && bytes_eq(self.rsa_id(), other.rsa_id())
    }

    /// Return true if this relay allows exiting to `port` on IPv4.
    pub fn supports_exit_port(&self, port: u16) -> (r: bool)
        ensures
            r == self@.supports_exit_port(port),
    {
        !self.rs.flags.bad_exit && self.md.ipv4_policy.allows_port(port)
    }

    /// Return true if this relay is suitable for use as a directory cache.
    pub fn is_dir_cache(&self) -> (r: bool)
        ensures
            r == self@.is_dir_cache(),
    {
        self.rs.flags.v2dir && self.rs.protovers.supports_known_subver(ProtoKind::DirCache, 2)
    }

    /// Return the weight of this Relay, according to `wf`.
    pub fn weight(&self, wf: WeightFn) -> (r: u32)
        ensures
            r == wf.spec_apply(self@.rs.weight),
    {
        wf.apply(&self.rs.weight)
    }
}

impl<'a> ChanTarget for Relay<'a> {
    fn addrs(&self) -> (r: &[RelayAddr])
        ensures
            r@ == self@.rs.addrs@,
    {
        self.rs.addrs.as_slice()
    }

    fn ed_identity(&self) -> (r: &Ed25519Identity)
        ensures
            *r == self@.md.ed25519_id,
    {
        self.id()
    }

    fn rsa_identity(&self) -> (r: &RsaIdentity)
        ensures
            *r == self@.rs.rsa_identity,
    {
        self.rsa_id()
    }
}

impl<'a> CircTarget for Relay<'a> {
    fn ntor_onion_key(&self) -> (r: &Curve25519Public)
        ensures
            *r == self@.md.ntor_onion_key,
    {
        &self.md.ntor_onion_key
    }

    fn protovers(&self) -> (r: &Protocols)
        ensures
            *r == self@.rs.protovers,
    {
        &self.rs.protovers
    }
}

} // verus!
