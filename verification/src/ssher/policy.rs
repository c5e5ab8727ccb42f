//! When a cached selection is used and when the endpoints are probed. The
//! program reads the cache, probes and stores as each step says; the steps
//! do not depend on the kind of selection, so the `sshe` client uses them
//! too.

use vstd::prelude::*;

use crate::text::concat2;

verus! {

/// What to do first for a host.
#[derive(Debug, Clone, Copy, PartialEq, Eq, Structural)]
pub enum CacheStep {
    /// Read the cache file and look the host up.
    ReadCache,
    /// Skip the cache and probe the endpoints.
    Probe,
}

/// What to do once the cache has been read.
#[derive(Debug)]
pub enum AfterRead<P> {
    /// The cached selection is fresh and fits the host: use it.
    Use(P),
    /// Probe the endpoints, first printing the warning where there is one.
    Probe { warning: Option<String> },
}

/// The first step: a refresh skips the cache, otherwise it is read.
pub fn first_step(refresh_cache: bool) -> (s: CacheStep)
    ensures
        s == (if refresh_cache {
            CacheStep::Probe
        } else {
            CacheStep::ReadCache
        }),
{
    if refresh_cache {
        CacheStep::Probe
    } else {
        CacheStep::ReadCache
    }
}

/// The step after reading the cache: a hit is used as it is, a miss leads
/// to probing, and so does a failed read, with a warning naming the error.
pub fn after_cache_read<P>(read: Result<Option<P>, String>) -> (a: AfterRead<P>)
    ensures
        read matches Ok(Some(p)) ==> a == AfterRead::Use(p),
        read matches Ok(None) ==> a matches AfterRead::Probe { warning: None },
        read matches Err(e) ==> a matches AfterRead::Probe { warning: Some(w) } && w@
            == "failed to read cache: "@ + e@,
{
    match read {
        Ok(Some(p)) => AfterRead::Use(p),
        Ok(None) => AfterRead::Probe { warning: None },
        Err(e) => AfterRead::Probe { warning: Some(concat2("failed to read cache: ", e.as_str())) },
    }
}

/// The step after a probed selection has been stored: the selection is used
/// whether or not storing it succeeded; a failed store only gives a warning
/// naming the error.
pub fn after_store<P>(probed: P, stored: Result<(), String>) -> (r: (P, Option<String>))
    ensures
        r.0 == probed,
        stored is Ok ==> r.1 is None,
        stored matches Err(e) ==> r.1 matches Some(w) && w@ == "failed to update cache: "@ + e@,
{
    match stored {
        Ok(()) => (probed, None),
        Err(e) => (probed, Some(concat2("failed to update cache: ", e.as_str()))),
    }
}

} // verus!
