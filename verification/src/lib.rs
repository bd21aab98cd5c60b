//! A client's view of an anonymity network's relay directory: assembling it
//! from a consensus and per-relay descriptors, choosing relays by weight, and
//! pacing the downloads that fill it in.
//!
//! Nothing in this crate reads a file, opens a connection or sleeps. It says
//! what is missing, when to try again, and which relay to use; acting on that
//! is left to the caller.
//!
//! * [`doc`] holds the records that a directory is made of.
//! * [`weight`] chooses the rule that turns declared bandwidths into weights.
//! * [`netdir`] assembles a directory and decides when it can be used;
//!   [`laws`] states what holds of a directory throughout.
//! * [`relay`] and [`linkspec`] describe one relay as seen through a
//!   directory.
//! * [`pick`] chooses one of many weighted items in a single pass, with
//!   numbers drawn through [`random`].
//! * [`docid`] names documents and groups the names into queries.
//! * [`retry`] and [`config`] pace repeated downloads.
//! * [`err`] and [`logid`] hold the error type and the identifiers used in
//!   log output.

pub mod config;
pub mod doc;
pub mod docid;
pub mod err;
pub mod laws;
pub mod linkspec;
pub mod logid;
pub mod netdir;
pub mod pick;
pub mod random;
pub mod relay;
pub mod retry;
pub mod weight;
