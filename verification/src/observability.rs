//! The observability interface the token flow reports into.
//!
//! Counters are fire-and-forget: they are consumed as the platform's
//! metrics sink, implemented outside the library, and nothing about the
//! flow's outcome ever depends on them — which is why nothing is
//! promised of the sink.

use vstd::prelude::*;

verus! {

/// Counters for access-token cache behaviour, each tagged by the
/// connector's name.
pub trait TokenCacheObserver {
    /// A token was found in the cache.
    fn access_token_cache_hit(&mut self, connector_name: &str);

    /// No token was in the cache.
    fn access_token_cache_miss(&mut self, connector_name: &str);

    /// A token-refresh step completed without a fatal error.
    fn access_token_creation(&mut self, connector_name: &str);
}

} // verus!
