//! Configuration of `ssher`: the parsed file, its validation, and the
//! per-host probing settings resolved against the global defaults.

use vstd::prelude::*;

use crate::config::host_message;
use crate::paths::{cache_path_spec, resolve_cache_path, HostEnvironment};
use crate::strmap::{find, StrMap};
use crate::text::{clone_strings, concat3, opt_string_view, views};

verus! {

/// How the best endpoint of a host is chosen.
#[derive(Debug, Clone, Copy, PartialEq, Eq, Structural)]
pub enum SelectionMode {
    LowestIcmpLatency,
    LowestTcpLatency,
}

/// The `[global]` table of the configuration file.
#[derive(Debug)]
pub struct GlobalConfig {
    pub probe_timeout_ms: Option<u64>,
    pub cache_ttl_sec: Option<u64>,
    pub cache_path: Option<String>,
    pub selection_mode: Option<SelectionMode>,
}

/// One `[hosts.<name>]` table of the configuration file.
#[derive(Debug)]
pub struct HostConfig {
    pub probe_timeout_ms: Option<u64>,
    pub selection_mode: Option<SelectionMode>,
    pub endpoints: Vec<String>,
}

/// The whole configuration file: optional globals and the hosts by name.
#[derive(Debug)]
pub struct SsherConfig {
    pub global: Option<GlobalConfig>,
    pub hosts: StrMap<HostConfig>,
}

/// Everything needed to choose an endpoint for one host.
#[derive(Debug, Clone)]
pub struct FinalConfig {
    pub host_alias: String,
    pub host: FinalHostConfig,
    pub cache: CacheConfig,
}

/// Where selection results are cached, and for how long.
#[derive(Debug, Clone)]
pub struct CacheConfig {
    pub ttl_sec: u64,
    pub path: String,
}

/// The probing settings of one host after the defaults have been applied.
#[derive(Debug, Clone)]
pub struct FinalHostConfig {
    pub probe_timeout_ms: u64,
    pub selection_mode: SelectionMode,
    pub endpoints: Vec<String>,
}

/// The probing settings of one host, endpoints taken by their characters.
pub struct FinalHostView {
    pub probe_timeout_ms: u64,
    pub selection_mode: SelectionMode,
    pub endpoints: Seq<Seq<char>>,
}

impl View for FinalHostConfig {
    type V = FinalHostView;

    open spec fn view(&self) -> FinalHostView {
        FinalHostView {
            probe_timeout_ms: self.probe_timeout_ms,
            selection_mode: self.selection_mode,
            endpoints: views(self.endpoints@),
        }
    }
}

/// Everything needed for one host, with strings taken by their characters.
pub struct FinalConfigView {
    pub host_alias: Seq<char>,
    pub host: FinalHostView,
    pub cache_ttl_sec: u64,
    pub cache_path: Seq<char>,
}

impl View for FinalConfig {
    type V = FinalConfigView;

    open spec fn view(&self) -> FinalConfigView {
        FinalConfigView {
            host_alias: self.host_alias@,
            host: self.host@,
            cache_ttl_sec: self.cache.ttl_sec,
            cache_path: self.cache.path@,
        }
    }
}

/// The global table behind an optional reference.
pub open spec fn deref_global(g: Option<&GlobalConfig>) -> Option<GlobalConfig> {
    match g {
        Some(g) => Some(*g),
        None => None,
    }
}

/// The host's value if set, else the global one if set, else the default.
pub open spec fn pick<A>(host: Option<A>, global: Option<A>, default: A) -> A {
    match host {
        Some(v) => v,
        None => match global {
            Some(v) => v,
            None => default,
        },
    }
}

/// A setting of the global table, where there is one.
pub open spec fn global_probe_timeout(g: Option<GlobalConfig>) -> Option<u64> {
    match g {
        Some(g) => g.probe_timeout_ms,
        None => None,
    }
}

/// A setting of the global table, where there is one.
pub open spec fn global_selection_mode(g: Option<GlobalConfig>) -> Option<SelectionMode> {
    match g {
        Some(g) => g.selection_mode,
        None => None,
    }
}

/// A setting of the global table, where there is one.
pub open spec fn global_cache_ttl(g: Option<GlobalConfig>) -> Option<u64> {
    match g {
        Some(g) => g.cache_ttl_sec,
        None => None,
    }
}

/// A setting of the global table, where there is one.
pub open spec fn global_cache_path(g: Option<GlobalConfig>) -> Option<Seq<char>> {
    match g {
        Some(g) => opt_string_view(g.cache_path),
        None => None,
    }
}

/// The probing settings of `host` with the global values and defaults
/// filled in (probe timeout 500 ms, lowest TCP latency).
pub open spec fn merge_spec(global: Option<GlobalConfig>, host: HostConfig) -> FinalHostView {
    FinalHostView {
        probe_timeout_ms: pick(host.probe_timeout_ms, global_probe_timeout(global), 500),
        selection_mode: pick(
            host.selection_mode,
            global_selection_mode(global),
            SelectionMode::LowestTcpLatency,
        ),
        endpoints: views(host.endpoints@),
    }
}

/// A setting of the host wins over the global one, which wins over the
/// default: whatever the global table holds, a selection mode or probe
/// timeout that the host sets is the resolved one; one the host leaves out
/// is the global value where that is set, else the default.
pub proof fn lemma_host_settings_take_precedence(global: Option<GlobalConfig>, host: HostConfig)
    ensures
        host.selection_mode matches Some(v) ==> merge_spec(global, host).selection_mode == v,
        host.selection_mode is None && global is Some && global->0.selection_mode is Some ==> merge_spec(global, host).selection_mode == global->0.selection_mode->0,
        host.selection_mode is None && !(global is Some && global->0.selection_mode is Some) ==> merge_spec(global, host).selection_mode == SelectionMode::LowestTcpLatency,
        host.probe_timeout_ms matches Some(v) ==> merge_spec(global, host).probe_timeout_ms == v,
        host.probe_timeout_ms is None && global is Some && global->0.probe_timeout_ms is Some ==> merge_spec(global, host).probe_timeout_ms == global->0.probe_timeout_ms->0,
        host.probe_timeout_ms is None && !(global is Some && global->0.probe_timeout_ms is Some) ==> merge_spec(global, host).probe_timeout_ms == 500u64,
{
}

/// The view of a host resolution result.
pub open spec fn final_result_view(r: Result<FinalConfig, String>) -> Result<
    FinalConfigView,
    Seq<char>,
> {
    match r {
        Ok(c) => Ok(c@),
        Err(e) => Err(e@),
    }
}

/// Applies the global settings and defaults to one host's settings; it
/// always succeeds.
pub fn merge_host_config(global: Option<&GlobalConfig>, host: &HostConfig) -> (r: Result<
    FinalHostConfig,
    String,
>)
    ensures
        r matches Ok(h) && h@ == merge_spec(deref_global(global), *host),
        host.selection_mode matches Some(v) ==> (r matches Ok(h) && h.selection_mode == v),
        host.selection_mode is None && global is Some && global->0.selection_mode is Some ==> (r matches Ok(h) && h.selection_mode == global->0.selection_mode->0),
        host.selection_mode is None && !(global is Some && global->0.selection_mode is Some) ==> (r matches Ok(h) && h.selection_mode == SelectionMode::LowestTcpLatency),
        host.probe_timeout_ms matches Some(v) ==> (r matches Ok(h) && h.probe_timeout_ms == v),
        host.probe_timeout_ms is None && global is Some && global->0.probe_timeout_ms is Some ==> (r matches Ok(h) && h.probe_timeout_ms == global->0.probe_timeout_ms->0),
        host.probe_timeout_ms is None && !(global is Some && global->0.probe_timeout_ms is Some) ==> (r matches Ok(h) && h.probe_timeout_ms == 500u64),
{
    let probe_timeout_ms = match host.probe_timeout_ms {
        Some(t) => t,
        None => match global {
            Some(g) => match g.probe_timeout_ms {
                Some(t) => t,
                None => 500,
            },
            None => 500,
        },
    };
    let selection_mode = match host.selection_mode {
        Some(m) => m,
        None => match global {
            Some(g) => match g.selection_mode {
                Some(m) => m,
                None => SelectionMode::LowestTcpLatency,
            },
            None => SelectionMode::LowestTcpLatency,
        },
    };
    Ok(
        FinalHostConfig {
            probe_timeout_ms,
            selection_mode,
            endpoints: clone_strings(&host.endpoints),
        },
    )
}

/// The settings for `host`. In order: an unknown host is an error; the cache
/// lives `cache_ttl_sec` seconds (default 300) at the configured path with
/// `~` expanded, else at `/run/user/<uid>/sshe/ssher_cache.toml`; the
/// host's table is merged with the globals.
pub open spec fn resolve_host_spec(
    config: SsherConfig,
    host: Seq<char>,
    env: HostEnvironment,
) -> Result<FinalConfigView, Seq<char>> {
    match find(config.hosts@, host) {
        None => Err(crate::config::unknown_host_message(host)),
        Some(h) => match cache_path_spec(
            global_cache_path(config.global),
            env,
            "ssher_cache.toml"@,
        ) {
            Err(e) => Err(e),
            Ok(cache_path) => Ok(
                FinalConfigView {
                    host_alias: host,
                    host: merge_spec(config.global, h),
                    cache_ttl_sec: pick(None, global_cache_ttl(config.global), 300),
                    cache_path,
                },
            ),
        },
    }
}

/// The first error of the global table, in the order it is checked.
pub open spec fn global_error(g: Option<GlobalConfig>) -> Option<Seq<char>> {
    match g {
        None => None,
        Some(g) => if g.probe_timeout_ms == Some(0u64) {
            Some("global probe_timeout_ms must be greater than 0"@)
        } else if g.cache_ttl_sec == Some(0u64) {
            Some("global cache_ttl_sec must be greater than 0"@)
        } else {
            None
        },
    }
}

/// The first error of one host's table, in the order it is checked.
pub open spec fn host_error(name: Seq<char>, h: HostConfig) -> Option<Seq<char>> {
    if h.probe_timeout_ms == Some(0u64) {
        Some("host '"@ + name + "' probe_timeout_ms must be greater than 0"@)
    } else if h.endpoints@.len() == 0 {
        Some("host '"@ + name + "' must have at least one endpoint"@)
    } else {
        None
    }
}

/// The error of the first host, in key order, that has one.
pub open spec fn first_host_error(hosts: Seq<(Seq<char>, HostConfig)>) -> Option<Seq<char>>
    decreases hosts.len(),
{
    if hosts.len() == 0 {
        None
    } else {
        match host_error(hosts[0].0, hosts[0].1) {
            Some(e) => Some(e),
            None => first_host_error(hosts.drop_first()),
        }
    }
}

/// The first error of the configuration: the globals first, then that
/// there is a host at all, then the hosts in key order.
pub open spec fn validation_error(config: SsherConfig) -> Option<Seq<char>> {
    match global_error(config.global) {
        Some(e) => Some(e),
        None => if config.hosts@.len() == 0 {
            Some("at least one host configuration is required"@)
        } else {
            first_host_error(config.hosts@)
        },
    }
}

fn check_global(g: &Option<GlobalConfig>) -> (r: Option<String>)
    ensures
        match r {
            Some(e) => global_error(*g) == Some(e@),
            None => global_error(*g) is None,
        },
{
    match g {
        Some(g) => {
            if g.probe_timeout_ms == Some(0u64) {
                return Some(String::from_str("global probe_timeout_ms must be greater than 0"));
            }
            if g.cache_ttl_sec == Some(0u64) {
                return Some(String::from_str("global cache_ttl_sec must be greater than 0"));
            }
            None
        },
        None => None,
    }
}

fn check_host(name: &str, h: &HostConfig) -> (r: Option<String>)
    ensures
        match r {
            Some(e) => host_error(name@, *h) == Some(e@),
            None => host_error(name@, *h) is None,
        },
{
    if h.probe_timeout_ms == Some(0u64) {
        return Some(host_message(name, "' probe_timeout_ms must be greater than 0"));
    }
    if h.endpoints.len() == 0 {
        return Some(host_message(name, "' must have at least one endpoint"));
    }
    None
}

impl SsherConfig {
    /// The settings for the host named `host`, given what is known of the
    /// running system.
    pub fn resolve_host(&self, host: &str, env: &HostEnvironment) -> (r: Result<
        FinalConfig,
        String,
    >)
        ensures
            final_result_view(r) == resolve_host_spec(*self, host@, *env),
    {
        let host_config = match self.hosts.get(host) {
            Some(h) => h,
            None => return Err(concat3("no configuration found for host '", host, "'")),
        };
        let global = match &self.global {
            Some(g) => Some(g),
            None => None,
        };
        let ttl_sec = match global {
            Some(g) => match g.cache_ttl_sec {
                Some(t) => t,
                None => 300,
            },
            None => 300,
        };
        let configured = match global {
            Some(g) => match &g.cache_path {
                Some(p) => Some(p.as_str()),
                None => None,
            },
            None => None,
        };
        let path = match resolve_cache_path(configured, env, "ssher_cache.toml") {
            Ok(p) => p,
            Err(e) => return Err(e),
        };
        let merged = match merge_host_config(global, host_config) {
            Ok(h) => h,
            Err(e) => return Err(e),
        };
        Ok(
            FinalConfig {
                host_alias: String::from_str(host),
                host: merged,
                cache: CacheConfig { ttl_sec, path },
            },
        )
    }

    /// Checks the configuration; the error names the first problem found.
    pub fn validate(&self) -> (r: Result<(), String>)
        ensures
            match r {
                Ok(()) => validation_error(*self) is None,
                Err(e) => validation_error(*self) == Some(e@),
            },
    {
        if let Some(e) = check_global(&self.global) {
            return Err(e);
        }
        if self.hosts.is_empty() {
            return Err(String::from_str("at least one host configuration is required"));
        }
        let n = self.hosts.len();
        let mut i: usize = 0;
        assert(self.hosts@.skip(0) =~= self.hosts@);
        while i < n
            invariant
                i <= n,
                n == self.hosts@.len(),
                n > 0,
                global_error(self.global) is None,
                first_host_error(self.hosts@) == first_host_error(self.hosts@.skip(i as int)),
            decreases n - i,
        {
            let (name, host) = self.hosts.entry_at(i);
            assert(self.hosts@.skip(i as int)[0] == self.hosts@[i as int]);
            assert(self.hosts@.skip(i as int).drop_first() =~= self.hosts@.skip(i + 1));
            let checked = check_host(name.as_str(), host);
            assert(self.hosts@.skip(i as int).len() > 0);
            assert(first_host_error(self.hosts@.skip(i as int)) == match host_error(name@, *host) {
                Some(e) => Some(e),
                None => first_host_error(self.hosts@.skip(i + 1)),
            });
            if let Some(e) = checked {
                return Err(e);
            }
            i = i + 1;
        }
        Ok(())
    }
}

/// No host has an error where none is first to have one.
proof fn lemma_no_host_error(hosts: Seq<(Seq<char>, HostConfig)>)
    requires
        first_host_error(hosts) is None,
    ensures
        forall|i: int| 0 <= i < hosts.len() ==> host_error((#[trigger] hosts[i]).0, hosts[i].1) is None,
    decreases hosts.len(),
{
    if hosts.len() > 0 {
        lemma_no_host_error(hosts.drop_first());
        assert forall|i: int| 0 <= i < hosts.len() implies host_error((#[trigger] hosts[i]).0, hosts[i].1) is None by {
            if i > 0 {
                assert(hosts[i] == hosts.drop_first()[i - 1]);
            }
        }
    }
}

/// A configuration that validates resolves every host to at least one
/// endpoint, a positive probe timeout and a positive cache lifetime.
pub proof fn lemma_validated_host_settings(config: SsherConfig, host: Seq<char>, env: HostEnvironment)
    requires
        validation_error(config) is None,
        resolve_host_spec(config, host, env) is Ok,
    ensures
        resolve_host_spec(config, host, env)->Ok_0.host.probe_timeout_ms > 0,
        resolve_host_spec(config, host, env)->Ok_0.host.endpoints.len() > 0,
        resolve_host_spec(config, host, env)->Ok_0.cache_ttl_sec > 0,
{
    crate::strmap::lemma_find_entry(config.hosts@, host);
    lemma_no_host_error(config.hosts@);
    let i = choose|i: int| 0 <= i < config.hosts@.len() && #[trigger] config.hosts@[i] == (host, find(config.hosts@, host)->0);
    assert(host_error(config.hosts@[i].0, config.hosts@[i].1) is None);
}

} // verus!
