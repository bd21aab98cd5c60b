//! The records that a directory is assembled from: the entry that a consensus
//! holds for each relay, and the microdescriptor that such an entry names by
//! its digest.
//!
//! These are plain values. Parsing them out of signed documents, and checking
//! the signatures, is done before they get here.

use vstd::prelude::*;

verus! {

/// The SHA256 digest that names a microdescriptor.
pub type MdDigest = [u8; 32];

/// An Ed25519 identity key of a relay.
pub type Ed25519Identity = [u8; 32];

/// The fingerprint of a relay's legacy RSA identity key.
pub type RsaIdentity = [u8; 20];

/// A Curve25519 public key, as used for circuit extension.
pub type Curve25519Public = [u8; 32];

/// Compare two byte strings of the same length.
pub fn bytes_eq<const N: usize>(a: &[u8; N], b: &[u8; N]) -> (r: bool)
    ensures
        r == (*a == *b),
{
    let mut i: usize = 0;
    while i < N
        invariant
            i <= N,
            forall|j: int| 0 <= j < i ==> a@[j] == b@[j],
        decreases N - i,
    {
        if a[i] != b[i] {
            return false;
        }
        i += 1;
    }
    assert(a@ =~= b@);
    assert(*a =~= *b);
    true
}

/// The bandwidth that a consensus declares for a relay.
#[derive(Debug, Clone, Copy, PartialEq, Eq, Structural)]
pub enum RouterWeight {
    /// The consensus gives no bandwidth for the relay.
    Absent,
    /// A bandwidth that the relay reported of itself.
    Unmeasured(u32),
    /// A bandwidth that the directory authorities measured.
    Measured(u32),
}

impl RouterWeight {
    /// True for a bandwidth that the authorities measured.
    pub open spec fn spec_is_measured(&self) -> bool {
        self is Measured
    }

    /// True if a bandwidth is given and it is not 0.
    pub open spec fn spec_is_nonzero(&self) -> bool {
        match *self {
            RouterWeight::Absent => false,
            RouterWeight::Unmeasured(u) => u != 0,
            RouterWeight::Measured(u) => u != 0,
        }
    }

    /// Return true if this weight is the result of a successful measurement.
    #[verifier::when_used_as_spec(spec_is_measured)]
    pub fn is_measured(&self) -> (r: bool)
        ensures
            r == self.spec_is_measured(),
    {
        match self {
            RouterWeight::Measured(_) => true,
            _ => false,
        }
    }

    /// Return true if this weight is nonzero.
    #[verifier::when_used_as_spec(spec_is_nonzero)]
    pub fn is_nonzero(&self) -> (r: bool)
        ensures
            r == self.spec_is_nonzero(),
    {
        match self {
            RouterWeight::Absent => false,
            RouterWeight::Unmeasured(u) => *u != 0,
            RouterWeight::Measured(u) => *u != 0,
        }
    }
}

/// The status flags of a relay that this crate acts on.
#[derive(Debug, Clone, Copy, PartialEq, Eq, Structural)]
pub struct RelayFlags {
    /// The relay is listed as a bad exit: it must not be used to leave the
    /// network.
    pub bad_exit: bool,
    /// The relay serves directory documents.
    pub v2dir: bool,
    /// The authorities did not agree on the relay's Ed25519 identity, so the
    /// key in its microdescriptor cannot be relied on.
    pub no_ed_consensus: bool,
}

/// A subprotocol whose versions a relay advertises.
#[derive(Debug, Clone, Copy, PartialEq, Eq, Structural)]
pub enum ProtoKind {
    /// Initiating and receiving channels, and getting cells on them.
    Link,
    /// Different kinds of authenticate cells.
    LinkAuth,
    /// CREATE cells, CREATED cells, and the encryption that they create.
    Relay,
    /// Serving and fetching network directory documents.
    DirCache,
    /// Serving onion service descriptors.
    HSDir,
    /// Providing an onion service introduction point.
    HSIntro,
    /// Providing an onion service rendezvous point.
    HSRend,
    /// Describing a relay's functionality using router descriptors.
    Desc,
    /// Describing a relay's functionality using microdescriptors.
    Microdesc,
    /// Describing the network as a consensus directory document.
    Cons,
    /// Sending and accepting circuit-level padding.
    Padding,
    /// Improved means of flow control on circuits.
    FlowCtrl,
    /// Multi-path circuit support.
    Conflux,
}

impl ProtoKind {
    /// The place of this subprotocol in a table of all thirteen.
    pub open spec fn spec_index(&self) -> int {
        match *self {
            ProtoKind::Link => 0,
            ProtoKind::LinkAuth => 1,
            ProtoKind::Relay => 2,
            ProtoKind::DirCache => 3,
            ProtoKind::HSDir => 4,
            ProtoKind::HSIntro => 5,
            ProtoKind::HSRend => 6,
            ProtoKind::Desc => 7,
            ProtoKind::Microdesc => 8,
            ProtoKind::Cons => 9,
            ProtoKind::Padding => 10,
            ProtoKind::FlowCtrl => 11,
            ProtoKind::Conflux => 12,
        }
    }

    /// The place of this subprotocol in a table of all thirteen.
    pub fn index(&self) -> (r: usize)
        ensures
            r == self.spec_index(),
            r < 13,
    {
        match self {
            ProtoKind::Link => 0,
            ProtoKind::LinkAuth => 1,
            ProtoKind::Relay => 2,
            ProtoKind::DirCache => 3,
            ProtoKind::HSDir => 4,
            ProtoKind::HSIntro => 5,
            ProtoKind::HSRend => 6,
            ProtoKind::Desc => 7,
            ProtoKind::Microdesc => 8,
            ProtoKind::Cons => 9,
            ProtoKind::Padding => 10,
            ProtoKind::FlowCtrl => 11,
            ProtoKind::Conflux => 12,
        }
    }
}

/// True if bit `ver` of `mask` is set. No version from 64 on is ever set.
pub open spec fn mask_has(mask: u64, ver: u8) -> bool {
    ver < 64 && (mask >> (ver as u64)) & 1 == 1
}

/// The versions of each subprotocol that a relay says it supports.
///
/// Versions 0 to 63 can be recorded, one bit of a mask for each.
#[derive(Debug, Clone, Copy, PartialEq, Eq)]
pub struct Protocols {
    /// For each subprotocol, at its index, the mask of supported versions.
    masks: [u64; 13],
}

impl Protocols {
    /// True if version `ver` of subprotocol `proto` is recorded as supported.
    pub closed spec fn spec_supports(&self, proto: ProtoKind, ver: u8) -> bool {
        mask_has(self.masks@[proto.spec_index()], ver)
    }

    /// The set of protocols that supports nothing.
    pub fn new() -> (r: Self)
        ensures
            forall|p: ProtoKind, v: u8| !r.spec_supports(p, v),
    {
        let r = Protocols { masks: [0u64;13] };
        assert forall|p: ProtoKind, v: u8| !r.spec_supports(p, v) by {
            let m = r.masks@[p.spec_index()];
            assert(m == 0);
            if v < 64 {
                let s = v as u64;
                assert((0u64 >> s) & 1 == 0) by (bit_vector);
            }
        }
        r
    }

    /// Record that version `ver` of `proto` is supported. A version from 64 on
    /// cannot be recorded, and the set stays as it is.
    pub fn with(self, proto: ProtoKind, ver: u8) -> (r: Self)
        ensures
            forall|p: ProtoKind, v: u8|
                r.spec_supports(p, v) == (self.spec_supports(p, v) || (p == proto && v == ver
                    && ver < 64)),
    {
        if ver >= 64 {
            return self;
        }
        let idx = proto.index();
        let old_mask = self.masks[idx];
        let shift = ver as u64;
        let new_mask = old_mask | (1u64 << shift);
        let mut r = self;
        r.masks[idx] = new_mask;
        assert forall|p: ProtoKind, v: u8|
            r.spec_supports(p, v) == (self.spec_supports(p, v) || (p == proto && v == ver)) by {
            if p.spec_index() == idx {
                assert(p == proto);
                if v < 64 {
                    let s = v as u64;
                    assert(((old_mask | (1u64 << shift)) >> s) & 1 == 1 <==> ((old_mask >> s) & 1
                        == 1 || s == shift)) by (bit_vector)
                        requires
                            s < 64,
                            shift < 64,
                    ;
                }
            } else {
                assert(r.masks@[p.spec_index()] == self.masks@[p.spec_index()]);
            }
        }
        r
    }

    /// Check whether version `ver` of the subprotocol `proto` is supported.
    #[verifier::when_used_as_spec(spec_supports)]
    pub fn supports_known_subver(&self, proto: ProtoKind, ver: u8) -> (r: bool)
        ensures
            r == self.spec_supports(proto, ver),
    {
        if ver >= 64 {
            return false;
        }
        let mask = self.masks[proto.index()];
        (mask >> (ver as u64)) & 1 == 1
    }
}

/// A range of ports, both ends included.
#[derive(Debug, Clone, Copy, PartialEq, Eq, Structural)]
pub struct PortRange {
    /// The first port in this range.
    pub lo: u16,
    /// The last port in this range.
    pub hi: u16,
}

impl PortRange {
    /// True if `port` lies in the range.
    pub open spec fn spec_contains(&self, port: u16) -> bool {
        self.lo <= port <= self.hi
    }

    /// Create the range from `lo` to `hi` inclusive. There is none if `lo` is
    /// greater than `hi`, or if `lo` is 0: port 0 is never allowed.
    pub fn new(lo: u16, hi: u16) -> (r: Option<Self>)
        ensures
            r == (if lo != 0 && lo <= hi {
                Some(PortRange { lo, hi })
            } else {
                None
            }),
    {
        if lo != 0 && lo <= hi {
            Some(PortRange { lo, hi })
        } else {
            None
        }
    }

    /// Return true if `port` lies in the range.
    #[verifier::when_used_as_spec(spec_contains)]
    pub fn contains(&self, port: u16) -> (r: bool)
        ensures
            r == self.spec_contains(port),
    {
        self.lo <= port && port <= self.hi
    }
}

/// The ports that a relay is willing to exit to: those of the listed ranges,
/// and no others.
#[derive(Debug, Clone)]
pub struct PortPolicy {
    /// The ranges of allowed ports, in no particular order.
    pub allowed: Vec<PortRange>,
}

/// True if one of `ranges` holds `port`.
pub open spec fn ranges_allow(ranges: Seq<PortRange>, port: u16) -> bool {
    exists|i: int| 0 <= i < ranges.len() && (#[trigger] ranges[i]).spec_contains(port)
}

impl PortPolicy {
    /// True if one of the ranges holds `port`.
    pub open spec fn spec_allows_port(&self, port: u16) -> bool {
        ranges_allow(self.allowed@, port)
    }

    /// Make the policy that allows the ports from 1 on for which `allows`
    /// says so, and no others. Ports that follow one another go into one
    /// range.
    pub fn from_fn<F: Fn(u16) -> bool>(allows: F) -> (r: Self)
        requires
            forall|p: u16| call_requires(allows, (p,)),
        ensures
            !r.spec_allows_port(0),
            forall|p: u16| p != 0 ==> call_ensures(allows, (p,), #[trigger] r.spec_allows_port(p)),
    {
        let mut allowed: Vec<PortRange> = Vec::new();
        // The first port of the run of allowed ports that is under way; 0 if
        // none is.
        let mut start: u16 = 0;
        let mut port: u32 = 1;
        while port <= 0xffff
            invariant
                1 <= port <= 0x1_0000,
                start < port,
                forall|p: u16| call_requires(allows, (p,)),
                forall|i: int|
                    0 <= i < allowed@.len() ==> 1 <= (#[trigger] allowed@[i]).lo && allowed@[i].hi < (
                    if start != 0 {
                        start as int
                    } else {
                        port as int
                    }),
                forall|q: u16|
                    1 <= q < port && (start == 0 || q < start) ==> call_ensures(
                        allows,
                        (q,),
                        #[trigger] ranges_allow(allowed@, q),
                    ),
                forall|q: u16|
                    start != 0 && start <= q < port ==> #[trigger] call_ensures(allows, (q,), true),
            decreases 0x1_0000 - port,
        {
            let here = port as u16;
            let ghost before = allowed@;
            if allows(here) {
                if start == 0 {
                    start = here;
                }
            } else {
                if start != 0 {
                    allowed.push(PortRange { lo: start, hi: (here - 1) as u16 });
                    proof {
                        let after = allowed@;
                        let last = before.len() as int;
                        assert forall|q: u16| 1 <= q < start implies ranges_allow(after, q)
                            == ranges_allow(before, q) by {
                            if ranges_allow(before, q) {
                                let i = choose|i: int|
                                    0 <= i < before.len() && (#[trigger] before[i]).spec_contains(q);
                                assert(after[i].spec_contains(q));
                            }
                            if ranges_allow(after, q) {
                                let i = choose|i: int|
                                    0 <= i < after.len() && (#[trigger] after[i]).spec_contains(q);
                                assert(i != last);
                                assert(before[i].spec_contains(q));
                            }
                        }
                        assert forall|q: u16| start <= q < here implies ranges_allow(after, q) by {
                            assert(after[last].spec_contains(q));
                        }
                    }
                    start = 0;
                }
                assert(!ranges_allow(allowed@, here));
            }
            port += 1;
        }
        if start != 0 {
            let ghost before = allowed@;
            allowed.push(PortRange { lo: start, hi: 0xffff });
            proof {
                let after = allowed@;
                let last = before.len() as int;
                assert forall|q: u16| 1 <= q < start implies ranges_allow(after, q) == ranges_allow(
                    before,
                    q,
                ) by {
                    if ranges_allow(before, q) {
                        let i = choose|i: int|
                            0 <= i < before.len() && (#[trigger] before[i]).spec_contains(q);
                        assert(after[i].spec_contains(q));
                    }
                    if ranges_allow(after, q) {
                        let i = choose|i: int|
                            0 <= i < after.len() && (#[trigger] after[i]).spec_contains(q);
                        assert(i != last);
                        assert(before[i].spec_contains(q));
                    }
                }
                assert forall|q: u16| start <= q implies ranges_allow(after, q) by {
                    assert(after[last].spec_contains(q));
                }
            }
        }
        PortPolicy { allowed }
    }

    /// The policy that rejects every port.
    pub fn new_reject_all() -> (r: Self)
        ensures
            r.allowed@.len() == 0,
            forall|port: u16| !#[trigger] r.spec_allows_port(port),
    {
        PortPolicy { allowed: Vec::new() }
    }

    /// Return true iff `port` is allowed by this policy.
    #[verifier::when_used_as_spec(spec_allows_port)]
    pub fn allows_port(&self, port: u16) -> (r: bool)
        ensures
            r == self.spec_allows_port(port),
    {
        let mut i: usize = 0;
        while i < self.allowed.len()
            invariant
                i <= self.allowed@.len(),
                forall|j: int| 0 <= j < i ==> !(#[trigger] self.allowed@[j]).spec_contains(port),
            decreases self.allowed@.len() - i,
        {
            if self.allowed[i].contains(port) {
                return true;
            }
            i += 1;
        }
        false
    }
}

/// Where a relay can be reached: an address and a port.
#[derive(Debug, Clone, Copy, PartialEq, Eq)]
pub enum RelayAddr {
    /// An IPv4 address and a port.
    V4([u8; 4], u16),
    /// An IPv6 address and a port.
    V6([u8; 16], u16),
}

/// What a consensus says of one relay.
#[derive(Debug, Clone)]
pub struct RouterStatus {
    /// Fingerprint of the relay's legacy RSA identity.
    pub rsa_identity: RsaIdentity,
    /// Digest of the microdescriptor that describes the relay.
    pub md_digest: MdDigest,
    /// The bandwidth declared for the relay.
    pub weight: RouterWeight,
    /// The flags that the authorities gave the relay.
    pub flags: RelayFlags,
    /// The subprotocol versions that the relay supports.
    pub protovers: Protocols,
    /// The addresses at which the relay can be reached.
    pub addrs: Vec<RelayAddr>,
}

impl RouterStatus {
    /// True if the relay's Ed25519 identity can be relied on.
    pub open spec fn spec_ed25519_id_is_usable(&self) -> bool {
        !self.flags.no_ed_consensus
    }

    /// Return true if the Ed25519 identity of this relay, as its
    /// microdescriptor gives it, can be relied on.
    #[verifier::when_used_as_spec(spec_ed25519_id_is_usable)]
    pub fn ed25519_id_is_usable(&self) -> (r: bool)
        ensures
            r == self.spec_ed25519_id_is_usable(),
    {
        !self.flags.no_ed_consensus
    }
}

/// A microdescriptor: what a relay says of itself, as far as a client needs it
/// to build circuits.
#[derive(Debug, Clone)]
pub struct Microdesc {
    /// The SHA256 digest of the document; a consensus names it by this.
    pub digest: MdDigest,
    /// The relay's Ed25519 identity.
    pub ed25519_id: Ed25519Identity,
    /// The public key for the ntor circuit-extension handshake.
    pub ntor_onion_key: Curve25519Public,
    /// The ports that the relay exits to over IPv4.
    pub ipv4_policy: PortPolicy,
}

/// A consensus: the relays of the network, in the order in which the document
/// lists them.
#[derive(Debug, Clone)]
pub struct MdConsensus {
    /// The entry of each relay.
    pub routers: Vec<RouterStatus>,
}

} // verus!
