//! The error type of the directory manager.

use vstd::prelude::*;

verus! {

/// An error originated by the directory manager code
#[derive(Debug)]
pub enum Error {
    /// We received a document we didn't want at all.
    Unwanted(&'static str),
    /// This DirMgr doesn't support downloads.
    NoDownloadSupport,
    /// A bad argument was provided to some configuration function.
    BadArgument(&'static str),
    /// We couldn't read something from disk that we should have been
    /// able to read.
    CacheCorruption(&'static str),
    /// The storage layer gave us an error; this is its message.
    SqliteError(String),
    /// A schema version that says we can't read it.
    UnrecognizedSchema,
    /// An updater no longer has anything to update.
    UpdaterShutdown,
    /// We couldn't configure the network.
    BadNetworkConfig(&'static str),
    /// User requested an operation that required a usable
    /// bootstrapped directory, but we didn't have one.
    DirectoryNotPresent,
    /// Another process has locked the store for writing.
    CacheIsLocked,
    /// A consensus document is signed by an unrecognized authority set.
    UnrecognizedAuthorities,
    /// A directory manager has been dropped; background tasks can exit too.
    ManagerDropped,
    /// We made a bunch of attempts, but weren't unable to advance the
    /// state of a download.
    CantAdvanceState,
}

} // verus!
