use vstd::prelude::*;

verus! {

/// Failure taxonomy of the caching core.
///
/// Every fallible decision of the library reports one of these; the outer
/// dispatch boundary maps them to a generic server error plus a logged
/// detail. The distinguished not-modified answer of a conditional fetch is no
/// error: it travels as a status outcome and is consumed to mean "serve the
/// existing artifact".
#[derive(Debug, Clone, PartialEq, Eq)]
pub enum Error {
    /// No credential for the weather endpoint was supplied at startup.
    NoApiKey,
    /// A required file or executable (payload: its name) is missing.
    NotFoundError(String),
    /// The given cache path exists but is not a directory.
    PathConflict(String),
    /// An upstream provider answered with a status that is neither success
    /// nor a relevant not-modified.
    UpstreamError(u16),
    /// A download ran past the size cap before it was complete.
    ResourceTooLarge,
    /// The external rasterizer exited with the given non-zero code.
    ConversionFailure(i32),
    /// A filesystem or temporary-file operation failed.
    PersistenceError,
}

} // verus!
