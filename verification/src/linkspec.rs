//! What it takes to connect to a relay, and to extend a circuit to it.

use crate::doc::{Curve25519Public, Ed25519Identity, Protocols, RelayAddr, RsaIdentity};
use vstd::prelude::*;

verus! {

/// Information about a relay that is enough to open a channel to it.
pub trait ChanTarget {
    /// Return the addresses at which you can connect to this relay.
    fn addrs(&self) -> &[RelayAddr];

    /// Return the Ed25519 identity of this relay.
    fn ed_identity(&self) -> &Ed25519Identity;

    /// Return the fingerprint of the RSA identity of this relay.
    fn rsa_identity(&self) -> &RsaIdentity;
}

/// Information about a relay that is enough to extend a circuit to it.
pub trait CircTarget: ChanTarget {
    /// Return the ntor onion key of this relay.
    fn ntor_onion_key(&self) -> &Curve25519Public;

    /// Return the subprotocol versions that this relay supports.
    fn protovers(&self) -> &Protocols;
}

} // verus!
