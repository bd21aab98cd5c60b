//! A general purpose "document ID type" for tracking which documents we want
//! and which we have, and the batches in which documents of one kind are
//! asked for together.

use crate::doc::{MdDigest, RsaIdentity};
use vstd::prelude::*;
use vstd::std_specs::convert::FromSpecImpl;

verus! {

/// The SHA1 digest that names a router descriptor.
pub type RdDigest = [u8; 20];

/// The flavor of a consensus: what kind of descriptor it names for each
/// relay.
#[derive(Clone, Copy, Debug, Hash, Eq, PartialEq)]
pub enum ConsensusFlavor {
    /// A consensus that names microdescriptors.
    Microdesc,
    /// A consensus that names full router descriptors.
    Plain,
}

/// The two keys that name an authority certificate.
#[derive(Clone, Copy, Debug, Hash, Eq, PartialEq)]
pub struct AuthCertKeyIds {
    /// Fingerprint of the authority's identity key.
    pub id_fingerprint: RsaIdentity,
    /// Fingerprint of the authority's signing key.
    pub sk_fingerprint: RsaIdentity,
}

/// Description of how to start out a given bootstrap attempt.
#[derive(Clone, Copy, Debug, Eq, PartialEq, Hash)]
pub enum CacheUsage {
    /// The bootstrap attempt will only use the cache.  Therefore, don't
    /// load a pending consensus from the cache, since we won't be able
    /// to find enough information to make it usable.
    CacheOnly,
    /// The bootstrap attempt is willing to download information or to
    /// use the cache.  Therefore, we want the latest cached
    /// consensus, whether it is pending or not.
    CacheOkay,
    /// The bootstrap attempt is trying to fetch a new consensus. Therefore,
    /// we don't want a consensus from the cache.
    MustDownload,
}

/// The identity of a single document, in enough detail to load it
/// from storage.
#[derive(Clone, Copy, Debug, Hash, Eq, PartialEq)]
#[non_exhaustive]
pub enum DocId {
    /// A request for the most recent consensus document.
    LatestConsensus {
        /// The flavor of consensus to request.
        flavor: ConsensusFlavor,
        /// Rules for loading this consensus from the cache.
        cache_usage: CacheUsage,
    },
    /// A request for an authority certificate, by the SHA1 digests of
    /// its identity key and signing key.
    AuthCert(AuthCertKeyIds),
    /// A request for a single microdescriptor, by SHA256 digest.
    Microdesc(MdDigest),
    /// A request for a router descriptor, by SHA1 digest.
    Routerdesc(RdDigest),
}

/// What a [`DocQuery`] asks for, as a mathematical value.
pub enum DocQueryView {
    /// The latest consensus of a flavor, under a rule for the cache.
    LatestConsensus {
        /// The flavor of consensus asked for.
        flavor: ConsensusFlavor,
        /// Whether the cache can or must be used.
        cache_usage: CacheUsage,
    },
    /// Authority certificates, in the order in which they were added.
    AuthCert(Seq<AuthCertKeyIds>),
    /// Microdescriptors, in the order in which they were added.
    Microdesc(Seq<MdDigest>),
    /// Router descriptors, in the order in which they were added.
    Routerdesc(Seq<RdDigest>),
}

impl DocQueryView {
    /// The batch of the kind of `id` that has no member. A batch for a
    /// consensus has no members at any time: it holds the flavor and the
    /// cache rule of `id`.
    pub open spec fn empty_for(id: DocId) -> DocQueryView {
        match id {
            DocId::LatestConsensus { flavor, cache_usage } => DocQueryView::LatestConsensus {
                flavor,
                cache_usage,
            },
            DocId::AuthCert(_) => DocQueryView::AuthCert(Seq::empty()),
            DocId::Microdesc(_) => DocQueryView::Microdesc(Seq::empty()),
            DocId::Routerdesc(_) => DocQueryView::Routerdesc(Seq::empty()),
        }
    }

    /// True if `id` is of the kind that this batch holds.
    pub open spec fn accepts(self, id: DocId) -> bool {
        match (self, id) {
            (DocQueryView::LatestConsensus { .. }, DocId::LatestConsensus { .. }) => true,
            (DocQueryView::AuthCert(_), DocId::AuthCert(_)) => true,
            (DocQueryView::Microdesc(_), DocId::Microdesc(_)) => true,
            (DocQueryView::Routerdesc(_), DocId::Routerdesc(_)) => true,
            _ => false,
        }
    }

    /// The batch with `id` added at its end. A batch for a consensus stays as
    /// it is, and so does any batch for an `id` of another kind.
    pub open spec fn push(self, id: DocId) -> DocQueryView {
        match (self, id) {
            (DocQueryView::AuthCert(ids), DocId::AuthCert(k)) => DocQueryView::AuthCert(
                ids.push(k),
            ),
            (DocQueryView::Microdesc(ids), DocId::Microdesc(d)) => DocQueryView::Microdesc(
                ids.push(d),
            ),
            (DocQueryView::Routerdesc(ids), DocId::Routerdesc(d)) => DocQueryView::Routerdesc(
                ids.push(d),
            ),
            _ => self,
        }
    }

    /// The number of documents that the batch names.
    pub open spec fn len(self) -> nat {
        match self {
            DocQueryView::LatestConsensus { .. } => 0,
            DocQueryView::AuthCert(ids) => ids.len(),
            DocQueryView::Microdesc(ids) => ids.len(),
            DocQueryView::Routerdesc(ids) => ids.len(),
        }
    }
}

/// A group of DocIds that can be downloaded or loaded from the database
/// together.
#[derive(Clone, Debug, PartialEq, Eq)]
pub enum DocQuery {
    /// A request for the latest consensus
    LatestConsensus {
        /// A desired flavor of consensus
        flavor: ConsensusFlavor,
        /// Whether we can or must use the cache
        cache_usage: CacheUsage,
    },
    /// A request for authority certificates
    AuthCert(Vec<AuthCertKeyIds>),
    /// A request for microdescriptors
    Microdesc(Vec<MdDigest>),
    /// A request for router descriptors
    Routerdesc(Vec<RdDigest>),
}

impl View for DocQuery {
    type V = DocQueryView;

    open spec fn view(&self) -> DocQueryView {
        match *self {
            DocQuery::LatestConsensus { flavor, cache_usage } => DocQueryView::LatestConsensus {
                flavor,
                cache_usage,
            },
            DocQuery::AuthCert(ids) => DocQueryView::AuthCert(ids@),
            DocQuery::Microdesc(ids) => DocQueryView::Microdesc(ids@),
            DocQuery::Routerdesc(ids) => DocQueryView::Routerdesc(ids@),
        }
    }
}

impl DocQuery {
    /// Construct an "empty" docquery from the given DocId
    pub fn empty_from_docid(id: &DocId) -> (r: Self)
        ensures
            r@ == DocQueryView::empty_for(*id),
            r@.accepts(*id),
            r@.len() == 0,
    {
        match *id {
            DocId::LatestConsensus { flavor, cache_usage } => DocQuery::LatestConsensus {
                flavor,
                cache_usage,
            },
            DocId::AuthCert(_) => DocQuery::AuthCert(Vec::new()),
            DocId::Microdesc(_) => DocQuery::Microdesc(Vec::new()),
            DocId::Routerdesc(_) => DocQuery::Routerdesc(Vec::new()),
        }
    }

    /// Return true if `id` is of the kind that this query holds, so that it
    /// can be added.
    pub fn accepts(&self, id: &DocId) -> (r: bool)
        ensures
            r == self@.accepts(*id),
    {
        match (self, id) {
            (DocQuery::LatestConsensus { .. }, DocId::LatestConsensus { .. }) => true,
            (DocQuery::AuthCert(_), DocId::AuthCert(_)) => true,
            (DocQuery::Microdesc(_), DocId::Microdesc(_)) => true,
            (DocQuery::Routerdesc(_), DocId::Routerdesc(_)) => true,
            _ => false,
        }
    }

    /// Add `id` to this query.
    ///
    /// The kind of `id` must be the kind of the query: queries are built from
    /// identities of one kind, and mixing kinds is a defect of the caller.
    pub fn push(&mut self, id: DocId)
        requires
            old(self)@.accepts(id),
        ensures
            final(self)@ == old(self)@.push(id),
            final(self)@.accepts(id),
    {
        match (self, id) {
            (DocQuery::LatestConsensus { .. }, DocId::LatestConsensus { .. }) => {},
            (DocQuery::AuthCert(ids), DocId::AuthCert(id)) => ids.push(id),
            (DocQuery::Microdesc(ids), DocId::Microdesc(id)) => ids.push(id),
            (DocQuery::Routerdesc(ids), DocId::Routerdesc(id)) => ids.push(id),
            (_, _) => {},
        }
    }

    /// Add `id` to this query if it is of the query's kind. Return whether it
    /// was; if not, the query stays as it is.
    pub fn try_push(&mut self, id: DocId) -> (r: bool)
        ensures
            r == old(self)@.accepts(id),
            final(self)@ == old(self)@.push(id),
    {
        if self.accepts(&id) {
            self.push(id);
            true
        } else {
            false
        }
    }

    /// The query that asks for `d` alone.
    pub fn singleton(d: DocId) -> (r: DocQuery)
        ensures
            r@ == DocQueryView::empty_for(d).push(d),
            r@.accepts(d),
    {
        let mut result = DocQuery::empty_from_docid(&d);
        result.push(d);
        result
    }
}

impl From<DocId> for DocQuery {
    fn from(d: DocId) -> (r: DocQuery)
        ensures
            r@ == DocQueryView::empty_for(d).push(d),
    {
        DocQuery::singleton(d)
    }
}

impl FromSpecImpl<DocId> for DocQuery {
    open spec fn obeys_from_spec() -> bool {
        false
    }

    open spec fn from_spec(d: DocId) -> DocQuery {
        arbitrary()
    }
}

} // verus!
