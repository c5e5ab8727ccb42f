//! Cached selection results of `ssher`: an entry per host alias, reused
//! while it is fresh and still fits the port and the host's settings.

use vstd::prelude::*;

use crate::clock::{current_unix_ts, is_clock_error};
use crate::ssher::config::{CacheConfig, FinalHostConfig, SelectionMode};
use crate::ssher::selector::{opt_probe_view, ProbeResult, ProbeResultView, ProbeSource};
use crate::strmap::{find, StrMap};
use crate::text::{contains_str, views};

verus! {

/// The cache file: one entry per host alias.
#[derive(Debug)]
pub struct CacheFile {
    pub entries: StrMap<CacheEntry>,
}

/// A cached selection: the endpoint, its latency, until when it holds, and
/// the port and selection mode it was measured for.
#[derive(Debug)]
pub struct CacheEntry {
    pub endpoint: String,
    pub latency_ms: u64,
    pub expires_at_unix: u64,
    pub port: u16,
    pub selection_mode: SelectionMode,
}

impl Default for CacheFile {
    /// An empty cache.
    fn default() -> (c: Self)
        ensures
            c.entries@.len() == 0,
    {
        CacheFile { entries: StrMap::new() }
    }
}

/// A cached entry is used only while it has not expired, for the same port
/// and selection mode, and while its endpoint is still one of the host's.
pub open spec fn cache_hit(entry: CacheEntry, now: u64, host: FinalHostConfig, port: u16) -> bool {
    &&& now < entry.expires_at_unix
    &&& entry.port == port
    &&& entry.selection_mode == host.selection_mode
    &&& views(host.endpoints@).contains(entry.endpoint@)
}

/// The cached selection for `alias` and `port` at time `now`, if there is a
/// usable one.
pub open spec fn lookup_spec(
    entries: Seq<(Seq<char>, CacheEntry)>,
    now: u64,
    alias: Seq<char>,
    host: FinalHostConfig,
    port: u16,
) -> Option<ProbeResultView> {
    match find(entries, alias) {
        None => None,
        Some(e) => if cache_hit(e, now, host, port) {
            Some(
                ProbeResultView {
                    endpoint: e.endpoint@,
                    latency_ms: e.latency_ms as u128,
                    source: ProbeSource::Cache,
                },
            )
        } else {
            None
        },
    }
}

/// A latency as stored: capped at the largest `u64`.
pub open spec fn clamp_latency(l: u128) -> u64 {
    if l > u64::MAX as u128 {
        u64::MAX
    } else {
        l as u64
    }
}

/// `now + ttl`, capped at the largest `u64`.
pub open spec fn expiry(now: u64, ttl: u64) -> u64 {
    if now + ttl > u64::MAX {
        u64::MAX
    } else {
        (now + ttl) as u64
    }
}

/// The entry that storing `result` for `host` and `port` at time `now`
/// writes.
pub open spec fn stored_entry(
    now: u64,
    ttl: u64,
    host: FinalHostConfig,
    port: u16,
    result: ProbeResult,
) -> CacheEntry {
    CacheEntry {
        endpoint: result.endpoint,
        latency_ms: clamp_latency(result.latency_ms),
        expires_at_unix: expiry(now, ttl),
        port,
        selection_mode: host.selection_mode,
    }
}

/// The usable cached selection for `host_alias` and `port` at time `now`.
pub fn lookup_cached_result(
    cache_file: &CacheFile,
    now: u64,
    host_alias: &str,
    host: &FinalHostConfig,
    port: u16,
) -> (r: Option<ProbeResult>)
    ensures
        opt_probe_view(r) == lookup_spec(cache_file.entries@, now, host_alias@, *host, port),
{
    let entry = match cache_file.entries.get(host_alias) {
        Some(e) => e,
        None => return None,
    };
    if entry.expires_at_unix <= now {
        return None;
    }
    if entry.port != port || entry.selection_mode != host.selection_mode {
        return None;
    }
    if !contains_str(&host.endpoints, entry.endpoint.as_str()) {
        return None;
    }
    Some(
        ProbeResult {
            endpoint: entry.endpoint.clone(),
            latency_ms: entry.latency_ms as u128,
            source: ProbeSource::Cache,
        },
    )
}

/// Records `result` for `host_alias` and `port`, measured at time `now`, to
/// hold for `cache.ttl_sec` seconds; the entries of other aliases stay as
/// they were.
pub fn insert_cached_result(
    cache_file: &mut CacheFile,
    now: u64,
    cache: &CacheConfig,
    host_alias: &str,
    host: &FinalHostConfig,
    port: u16,
    result: &ProbeResult,
)
    ensures
        find(final(cache_file).entries@, host_alias@) == Some(
            stored_entry(now, cache.ttl_sec, *host, port, *result),
        ),
        forall|k: Seq<char>|
            k != host_alias@ ==> #[trigger] find(final(cache_file).entries@, k) == find(
                old(cache_file).entries@,
                k,
            ),
{
    let latency_ms = if result.latency_ms > u64::MAX as u128 {
        u64::MAX
    } else {
        result.latency_ms as u64
    };
    let entry = CacheEntry {
        endpoint: result.endpoint.clone(),
        latency_ms,
        expires_at_unix: now.saturating_add(cache.ttl_sec),
        port,
        selection_mode: host.selection_mode,
    };
    cache_file.entries.insert(String::from_str(host_alias), entry);
}

/// The usable cached selection for `host_alias` and `port` now, from the
/// cache file's contents. The clock decides which entries are fresh:
/// whatever it reads, the answer is that of the lookup at that time.
pub fn load_cached_result(
    cache_file: &CacheFile,
    host_alias: &str,
    host: &FinalHostConfig,
    port: u16,
) -> (r: Result<Option<ProbeResult>, String>)
    ensures
        r matches Err(m) ==> is_clock_error(m@),
        r matches Ok(o) ==> exists|now: u64|
            opt_probe_view(o) == lookup_spec(cache_file.entries@, now, host_alias@, *host, port),
{
    let now = match current_unix_ts() {
        Ok(t) => t,
        Err(e) => return Err(e),
    };
    let found = lookup_cached_result(cache_file, now, host_alias, host, port);
    Ok(found)
}

/// Records `result` for `host_alias` and `port` now in the cache file's
/// contents. On success the entry was written at some clock reading; on a
/// clock error the contents are unchanged.
pub fn store_cached_result(
    cache_file: &mut CacheFile,
    cache: &CacheConfig,
    host_alias: &str,
    host: &FinalHostConfig,
    port: u16,
    result: &ProbeResult,
) -> (r: Result<(), String>)
    ensures
        r is Ok ==> exists|now: u64|
            find(final(cache_file).entries@, host_alias@) == Some(
                stored_entry(now, cache.ttl_sec, *host, port, *result),
            ),
        r is Ok ==> forall|k: Seq<char>|
            k != host_alias@ ==> #[trigger] find(final(cache_file).entries@, k) == find(
                old(cache_file).entries@,
                k,
            ),
        r is Err ==> final(cache_file).entries@ == old(cache_file).entries@,
        r matches Err(m) ==> is_clock_error(m@),
{
    let now = match current_unix_ts() {
        Ok(t) => t,
        Err(e) => return Err(e),
    };
    insert_cached_result(cache_file, now, cache, host_alias, host, port, result);
    Ok(())
}

/// Reading back what was stored: once `result` has been stored for `alias`
/// and `port` at time `now`, a lookup at time `t` for the same host and port
/// gives `result` (from the cache, latency capped at the largest `u64`)
/// exactly when `t` is before the expiry and the endpoint is still one of
/// the host's.
pub proof fn lemma_store_then_load(
    entries: Seq<(Seq<char>, CacheEntry)>,
    alias: Seq<char>,
    host: FinalHostConfig,
    port: u16,
    result: ProbeResult,
    now: u64,
    ttl: u64,
    t: u64,
)
    requires
        find(entries, alias) == Some(stored_entry(now, ttl, host, port, result)),
    ensures
        lookup_spec(entries, t, alias, host, port) == if t < expiry(now, ttl) && views(
            host.endpoints@,
        ).contains(result.endpoint@) {
            Some(
                ProbeResultView {
                    endpoint: result.endpoint@,
                    latency_ms: clamp_latency(result.latency_ms) as u128,
                    source: ProbeSource::Cache,
                },
            )
        } else {
            None
        },
{
}

/// A lookup answers from the cache exactly when the alias has an entry that
/// has not expired, was measured for the same port and selection mode, and
/// names one of the host's endpoints; the answer is that entry.
pub proof fn lemma_hit_conditions(
    entries: Seq<(Seq<char>, CacheEntry)>,
    now: u64,
    alias: Seq<char>,
    host: FinalHostConfig,
    port: u16,
)
    ensures
        lookup_spec(entries, now, alias, host, port) is Some <==> (find(entries, alias) matches Some(e)
            && now < e.expires_at_unix && e.port == port && e.selection_mode
            == host.selection_mode && views(host.endpoints@).contains(e.endpoint@)),
        lookup_spec(entries, now, alias, host, port) matches Some(p) ==> (find(entries, alias) matches Some(e)
            && p.endpoint == e.endpoint@ && p.latency_ms == e.latency_ms as u128 && p.source
            == ProbeSource::Cache),
{
}

/// An entry stored for one port is never used for another.
pub proof fn lemma_other_port_misses(
    entries: Seq<(Seq<char>, CacheEntry)>,
    alias: Seq<char>,
    host: FinalHostConfig,
    port: u16,
    other: u16,
    result: ProbeResult,
    now: u64,
    ttl: u64,
    t: u64,
)
    requires
        find(entries, alias) == Some(stored_entry(now, ttl, host, port, result)),
        other != port,
    ensures
        lookup_spec(entries, t, alias, host, other) is None,
{
}

} // verus!
