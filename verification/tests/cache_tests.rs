use sshe::sshe::cache::{insert_cached_result, load_cached_result, lookup_cached_result, store_cached_result, CacheEntry, CacheFile};
use sshe::sshe::config::{CacheConfig, FinalHostConfig, SelectionMode};
use sshe::sshe::selector::{ProbeResult, ProbeSource};
use sshe::ssher::cache as ssher_cache;
use sshe::ssher::config as ssher_config;
use sshe::ssher::policy::{after_cache_read, after_store, first_step, AfterRead, CacheStep};
use sshe::ssher::selector as ssher_selector;

fn test_host() -> FinalHostConfig {
    FinalHostConfig {
        user: "u".to_string(),
        port: 22,
        identity_file: "/k".to_string(),
        probe_timeout_ms: 500,
        probe_concurrency: 4,
        selection_mode: SelectionMode::LowestTcpLatency,
        endpoints: vec!["127.0.0.1".to_string(), "10.0.0.5".to_string()],
    }
}

fn cache() -> CacheConfig {
    CacheConfig { ttl_sec: 300, path: "/tmp/cache.toml".to_string() }
}

fn probe(endpoint: &str, latency_ms: u128) -> ProbeResult {
    ProbeResult { endpoint: endpoint.to_string(), latency_ms, source: ProbeSource::Probe }
}

#[test]
fn stored_result_is_read_back_until_expiry() {
    let mut file = CacheFile::default();
    insert_cached_result(&mut file, 1000, &cache(), "my-pc", &test_host(), &probe("10.0.0.5", 12));
    let hit = lookup_cached_result(&file, 1299, "my-pc", &test_host()).expect("fresh entry");
    assert_eq!(hit.endpoint, "10.0.0.5");
    assert_eq!(hit.latency_ms, 12);
    assert_eq!(hit.source, ProbeSource::Cache);
    assert!(lookup_cached_result(&file, 1300, "my-pc", &test_host()).is_none());
    assert!(lookup_cached_result(&file, 1000, "other", &test_host()).is_none());
}

#[test]
fn cached_entry_must_fit_the_host() {
    let mut file = CacheFile::default();
    insert_cached_result(&mut file, 0, &cache(), "pc", &test_host(), &probe("127.0.0.1", 3));
    let mut other_port = test_host();
    other_port.port = 2222;
    assert!(lookup_cached_result(&file, 1, "pc", &other_port).is_none());
    let mut other_mode = test_host();
    other_mode.selection_mode = SelectionMode::LowestIcmpLatency;
    assert!(lookup_cached_result(&file, 1, "pc", &other_mode).is_none());
    let mut other_endpoints = test_host();
    other_endpoints.endpoints = vec!["10.0.0.5".to_string()];
    assert!(lookup_cached_result(&file, 1, "pc", &other_endpoints).is_none());
    assert!(lookup_cached_result(&file, 1, "pc", &test_host()).is_some());
}

#[test]
fn store_replaces_and_keeps_other_aliases() {
    let mut file = CacheFile::default();
    insert_cached_result(&mut file, 0, &cache(), "b", &test_host(), &probe("127.0.0.1", 1));
    insert_cached_result(&mut file, 0, &cache(), "a", &test_host(), &probe("127.0.0.1", 2));
    insert_cached_result(&mut file, 10, &cache(), "b", &test_host(), &probe("10.0.0.5", u128::MAX));
    assert_eq!(file.entries.len(), 2);
    let a = file.entries.get("a").unwrap();
    assert_eq!(a.latency_ms, 2);
    let b: &CacheEntry = file.entries.get("b").unwrap();
    assert_eq!(b.endpoint, "10.0.0.5");
    assert_eq!(b.latency_ms, u64::MAX);
    assert_eq!(b.expires_at_unix, 310);
    let (first, _) = file.entries.entry_at(0);
    assert_eq!(first, "a");
}

#[test]
fn expiry_saturates() {
    let mut file = CacheFile::default();
    let long = CacheConfig { ttl_sec: u64::MAX, path: "/c".to_string() };
    insert_cached_result(&mut file, 5, &long, "pc", &test_host(), &probe("127.0.0.1", 1));
    assert_eq!(file.entries.get("pc").unwrap().expires_at_unix, u64::MAX);
}

#[test]
fn load_cached_result_returns_none_when_cache_file_missing() {
    let result = load_cached_result(&CacheFile::default(), "my-pc", &test_host())
        .expect("missing cache file should be treated as empty cache");
    assert!(result.is_none());
}

#[test]
fn store_then_load_now() {
    let mut file = CacheFile::default();
    store_cached_result(&mut file, &cache(), "my-pc", &test_host(), &probe("127.0.0.1", 9)).unwrap();
    let hit = load_cached_result(&file, "my-pc", &test_host()).unwrap().expect("just stored");
    assert_eq!(hit.endpoint, "127.0.0.1");
    assert_eq!(hit.latency_ms, 9);
}

#[test]
fn clock_reads_after_epoch() {
    let now = sshe::clock::current_unix_ts().unwrap();
    assert!(now > 1_600_000_000);
}

fn ssher_host() -> ssher_config::FinalHostConfig {
    ssher_config::FinalHostConfig {
        probe_timeout_ms: 500,
        selection_mode: ssher_config::SelectionMode::LowestTcpLatency,
        endpoints: vec!["127.0.0.1".to_string()],
    }
}

#[test]
fn ssher_cache_is_per_port() {
    let mut file = ssher_cache::CacheFile::default();
    let c = ssher_config::CacheConfig { ttl_sec: 300, path: "/c".to_string() };
    let r = ssher_selector::ProbeResult {
        endpoint: "127.0.0.1".to_string(),
        latency_ms: 4,
        source: ssher_selector::ProbeSource::Probe,
    };
    ssher_cache::insert_cached_result(&mut file, 100, &c, "my-pc", &ssher_host(), 22, &r);
    let hit = ssher_cache::lookup_cached_result(&file, 200, "my-pc", &ssher_host(), 22).unwrap();
    assert_eq!(hit.latency_ms, 4);
    assert_eq!(hit.source, ssher_selector::ProbeSource::Cache);
    assert!(ssher_cache::lookup_cached_result(&file, 200, "my-pc", &ssher_host(), 2222).is_none());
    assert!(ssher_cache::lookup_cached_result(&file, 400, "my-pc", &ssher_host(), 22).is_none());
    let now = ssher_cache::load_cached_result(&ssher_cache::CacheFile::default(), "my-pc", &ssher_host(), 22).unwrap();
    assert!(now.is_none());
}

#[test]
fn refresh_skips_the_cache() {
    assert_eq!(first_step(true), CacheStep::Probe);
    assert_eq!(first_step(false), CacheStep::ReadCache);
}

#[test]
fn cache_read_outcomes() {
    match after_cache_read(Ok(Some(probe("10.0.0.5", 7)))) {
        AfterRead::Use(p) => {
            assert_eq!(p.endpoint, "10.0.0.5");
            assert_eq!(p.latency_ms, 7);
        }
        AfterRead::Probe { .. } => panic!("a hit is used"),
    }
    match after_cache_read::<ProbeResult>(Ok(None)) {
        AfterRead::Probe { warning } => assert_eq!(warning, None),
        AfterRead::Use(_) => panic!("a miss probes"),
    }
    match after_cache_read::<ProbeResult>(Err("failed to parse cache file /c: bad".to_string())) {
        AfterRead::Probe { warning } => {
            assert_eq!(warning.as_deref(), Some("failed to read cache: failed to parse cache file /c: bad"))
        }
        AfterRead::Use(_) => panic!("a failed read probes"),
    }
}

#[test]
fn probed_result_is_kept_whether_or_not_stored() {
    let (p, w) = after_store(probe("127.0.0.1", 3), Ok(()));
    assert_eq!(p.endpoint, "127.0.0.1");
    assert_eq!(w, None);
    let (p, w) = after_store(probe("127.0.0.1", 3), Err("disk full".to_string()));
    assert_eq!(p.latency_ms, 3);
    assert_eq!(w.as_deref(), Some("failed to update cache: disk full"));
}
