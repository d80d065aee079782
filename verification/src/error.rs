use vstd::prelude::*;

verus! {

/// Why a call to the video platform, or a whole aggregation, did not deliver.
#[derive(Clone, Copy, Debug, PartialEq, Eq, Structural)]
pub enum FeedError {
    /// The credential was rejected, or could not be refreshed.
    Unauthorized,
    /// The platform answered "too many requests" to the call and to its one
    /// retry.
    RateLimitedExhausted,
    /// The platform answered with this status, which is neither a success nor
    /// a rate limit.
    Upstream(u16),
    /// The call failed below HTTP, or its body could not be decoded.
    Transport,
    /// A page handed back the continuation token it was requested with.
    Pagination,
    /// An event arrived that the current state does not wait for.
    OutOfSequence,
}

} // verus!
