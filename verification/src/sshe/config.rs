//! Configuration of the `sshe` client: the parsed file, its validation, and
//! the per-host settings resolved against the global defaults.

use vstd::prelude::*;

use crate::config::host_message;
use crate::paths::{
    cache_path_spec, expand_tilde, expand_tilde_spec, resolve_cache_path, HostEnvironment,
};
use crate::strmap::{find, StrMap};
use crate::text::{
    clone_strings, concat3, decimal, is_blank, lemma_blank_iff_all_white_space, opt_string_view,
    opt_view, push_decimal, trim, views,
};

verus! {

/// How the best endpoint of a host is chosen.
#[derive(Debug, Clone, Copy, PartialEq, Eq, Structural)]
pub enum SelectionMode {
    LowestIcmpLatency,
    LowestTcpLatency,
}

/// The `[global]` table of the configuration file.
#[derive(Debug)]
pub struct GlobalConfig {
    pub ssh_bin: Option<String>,
    pub probe_timeout_ms: Option<u64>,
    pub probe_concurrency: Option<usize>,
    pub cache_ttl_sec: Option<u64>,
    pub cache_path: Option<String>,
    pub selection_mode: Option<SelectionMode>,
}

/// One `[hosts.<name>]` table of the configuration file.
#[derive(Debug)]
pub struct HostConfig {
    pub user: String,
    pub port: u16,
    pub identity_file: String,
    pub probe_timeout_ms: Option<u64>,
    pub selection_mode: Option<SelectionMode>,
    pub endpoints: Vec<String>,
}

/// The whole configuration file: optional globals and the hosts by name.
#[derive(Debug)]
pub struct SsheConfig {
    pub global: Option<GlobalConfig>,
    pub hosts: StrMap<HostConfig>,
}

/// Everything needed to reach one host.
#[derive(Debug, Clone)]
pub struct FinalConfig {
    pub host_alias: String,
    pub ssh_bin: String,
    pub host: FinalHostConfig,
    pub cache: CacheConfig,
}

/// Where selection results are cached, and for how long.
#[derive(Debug, Clone)]
pub struct CacheConfig {
    pub ttl_sec: u64,
    pub path: String,
}

/// The settings of one host after the defaults have been applied.
#[derive(Debug, Clone)]
pub struct FinalHostConfig {
    pub user: String,
    pub port: u16,
    pub identity_file: String,
    pub probe_timeout_ms: u64,
    pub probe_concurrency: usize,
    pub selection_mode: SelectionMode,
    pub endpoints: Vec<String>,
}

/// The settings of one host, with strings taken by their characters.
pub struct FinalHostView {
    pub user: Seq<char>,
    pub port: u16,
    pub identity_file: Seq<char>,
    pub probe_timeout_ms: u64,
    pub probe_concurrency: usize,
    pub selection_mode: SelectionMode,
    pub endpoints: Seq<Seq<char>>,
}

impl View for FinalHostConfig {
    type V = FinalHostView;

    open spec fn view(&self) -> FinalHostView {
        FinalHostView {
            user: self.user@,
            port: self.port,
            identity_file: self.identity_file@,
            probe_timeout_ms: self.probe_timeout_ms,
            probe_concurrency: self.probe_concurrency,
            selection_mode: self.selection_mode,
            endpoints: views(self.endpoints@),
        }
    }
}

/// Everything needed to reach one host, with strings taken by their
/// characters.
pub struct FinalConfigView {
    pub host_alias: Seq<char>,
    pub ssh_bin: Seq<char>,
    pub host: FinalHostView,
    pub cache_ttl_sec: u64,
    pub cache_path: Seq<char>,
}

impl View for FinalConfig {
    type V = FinalConfigView;

    open spec fn view(&self) -> FinalConfigView {
        FinalConfigView {
            host_alias: self.host_alias@,
            ssh_bin: self.ssh_bin@,
            host: self.host@,
            cache_ttl_sec: self.cache.ttl_sec,
            cache_path: self.cache.path@,
        }
    }
}

/// The global table behind an optional reference.
pub open spec fn deref_global(g: Option<&GlobalConfig>) -> Option<GlobalConfig> {
    match g {
        Some(g) => Some(*g),
        None => None,
    }
}

/// The host's value if set, else the global one if set, else the default.
pub open spec fn pick<A>(host: Option<A>, global: Option<A>, default: A) -> A {
    match host {
        Some(v) => v,
        None => match global {
            Some(v) => v,
            None => default,
        },
    }
}

/// A setting of the global table, where there is one.
pub open spec fn global_probe_timeout(g: Option<GlobalConfig>) -> Option<u64> {
    match g {
        Some(g) => g.probe_timeout_ms,
        None => None,
    }
}

/// A setting of the global table, where there is one.
pub open spec fn global_probe_concurrency(g: Option<GlobalConfig>) -> Option<usize> {
    match g {
        Some(g) => g.probe_concurrency,
        None => None,
    }
}

/// A setting of the global table, where there is one.
pub open spec fn global_selection_mode(g: Option<GlobalConfig>) -> Option<SelectionMode> {
    match g {
        Some(g) => g.selection_mode,
        None => None,
    }
}

/// A setting of the global table, where there is one.
pub open spec fn global_cache_ttl(g: Option<GlobalConfig>) -> Option<u64> {
    match g {
        Some(g) => g.cache_ttl_sec,
        None => None,
    }
}

/// A setting of the global table, where there is one.
pub open spec fn global_cache_path(g: Option<GlobalConfig>) -> Option<Seq<char>> {
    match g {
        Some(g) => opt_string_view(g.cache_path),
        None => None,
    }
}

/// The settings of `host` with the global values and defaults filled in
/// (probe timeout 500 ms, concurrency 4, lowest TCP latency), and its
/// identity file with a leading `~` expanded.
pub open spec fn merge_spec(
    global: Option<GlobalConfig>,
    host: HostConfig,
    home: Option<Seq<char>>,
) -> Result<FinalHostView, Seq<char>> {
    match expand_tilde_spec(host.identity_file@, home) {
        Err(e) => Err(e),
        Ok(identity_file) => Ok(
            FinalHostView {
                user: host.user@,
                port: host.port,
                identity_file,
                probe_timeout_ms: pick(host.probe_timeout_ms, global_probe_timeout(global), 500),
                probe_concurrency: pick(None, global_probe_concurrency(global), 4),
                selection_mode: pick(
                    host.selection_mode,
                    global_selection_mode(global),
                    SelectionMode::LowestTcpLatency,
                ),
                endpoints: views(host.endpoints@),
            },
        ),
    }
}

/// The view of a merge result.
pub open spec fn host_result_view(r: Result<FinalHostConfig, String>) -> Result<
    FinalHostView,
    Seq<char>,
> {
    match r {
        Ok(h) => Ok(h@),
        Err(e) => Err(e@),
    }
}

/// A setting of the host wins over the global one, which wins over the
/// default: whatever the global table holds, a selection mode or probe
/// timeout that the host sets is the resolved one; one the host leaves out
/// is the global value where that is set, else the default.
pub proof fn lemma_host_settings_take_precedence(global: Option<GlobalConfig>, host: HostConfig, home: Option<Seq<char>>)
    ensures
        host.selection_mode matches Some(v) ==> (merge_spec(global, host, home) matches Ok(m) ==> m.selection_mode == v),
        host.selection_mode is None && global is Some && global->0.selection_mode is Some ==> (merge_spec(global, host, home) matches Ok(m) ==> m.selection_mode == global->0.selection_mode->0),
        host.selection_mode is None && !(global is Some && global->0.selection_mode is Some) ==> (merge_spec(global, host, home) matches Ok(m) ==> m.selection_mode == SelectionMode::LowestTcpLatency),
        host.probe_timeout_ms matches Some(v) ==> (merge_spec(global, host, home) matches Ok(m) ==> m.probe_timeout_ms == v),
        host.probe_timeout_ms is None && global is Some && global->0.probe_timeout_ms is Some ==> (merge_spec(global, host, home) matches Ok(m) ==> m.probe_timeout_ms == global->0.probe_timeout_ms->0),
        host.probe_timeout_ms is None && !(global is Some && global->0.probe_timeout_ms is Some) ==> (merge_spec(global, host, home) matches Ok(m) ==> m.probe_timeout_ms == 500u64),
        !(global is Some && global->0.probe_concurrency is Some) ==> (merge_spec(global, host, home) matches Ok(m) ==> m.probe_concurrency == 4usize),
        global is Some && global->0.probe_concurrency is Some ==> (merge_spec(global, host, home) matches Ok(m) ==> m.probe_concurrency == global->0.probe_concurrency->0),
{
}

/// The view of a host resolution result.
pub open spec fn final_result_view(r: Result<FinalConfig, String>) -> Result<
    FinalConfigView,
    Seq<char>,
> {
    match r {
        Ok(c) => Ok(c@),
        Err(e) => Err(e@),
    }
}

/// Applies the global settings and defaults to one host's settings. `home`
/// is the value of `HOME`, needed where the identity file starts with `~`.
pub fn merge_host_config(
    global: Option<&GlobalConfig>,
    host: &HostConfig,
    home: Option<&str>,
) -> (r: Result<FinalHostConfig, String>)
    ensures
        host_result_view(r) == merge_spec(deref_global(global), *host, opt_view(home)),
        host.selection_mode matches Some(v) ==> (r matches Ok(h) ==> h.selection_mode == v),
        host.selection_mode is None && global is Some && global->0.selection_mode is Some ==> (r matches Ok(h) ==> h.selection_mode == global->0.selection_mode->0),
        host.selection_mode is None && !(global is Some && global->0.selection_mode is Some) ==> (r matches Ok(h) ==> h.selection_mode == SelectionMode::LowestTcpLatency),
        host.probe_timeout_ms matches Some(v) ==> (r matches Ok(h) ==> h.probe_timeout_ms == v),
        host.probe_timeout_ms is None && global is Some && global->0.probe_timeout_ms is Some ==> (r matches Ok(h) ==> h.probe_timeout_ms == global->0.probe_timeout_ms->0),
        host.probe_timeout_ms is None && !(global is Some && global->0.probe_timeout_ms is Some) ==> (r matches Ok(h) ==> h.probe_timeout_ms == 500u64),
        !(global is Some && global->0.probe_concurrency is Some) ==> (r matches Ok(h) ==> h.probe_concurrency == 4usize),
        global is Some && global->0.probe_concurrency is Some ==> (r matches Ok(h) ==> h.probe_concurrency == global->0.probe_concurrency->0),
{
    let identity_file = match expand_tilde(host.identity_file.as_str(), home) {
        Ok(p) => p,
        Err(e) => return Err(e),
    };
    let probe_concurrency = match global {
        Some(g) => match g.probe_concurrency {
            Some(c) => c,
            None => 4,
        },
        None => 4,
    };
    let probe_timeout_ms = match host.probe_timeout_ms {
        Some(t) => t,
        None => match global {
            Some(g) => match g.probe_timeout_ms {
                Some(t) => t,
                None => 500,
            },
            None => 500,
        },
    };
    let selection_mode = match host.selection_mode {
        Some(m) => m,
        None => match global {
            Some(g) => match g.selection_mode {
                Some(m) => m,
                None => SelectionMode::LowestTcpLatency,
            },
            None => SelectionMode::LowestTcpLatency,
        },
    };
    Ok(
        FinalHostConfig {
            user: host.user.clone(),
            port: host.port,
            identity_file,
            probe_timeout_ms,
            probe_concurrency,
            selection_mode,
            endpoints: clone_strings(&host.endpoints),
        },
    )
}

/// The ssh program: the global `ssh_bin`, else `ssh`.
pub open spec fn ssh_bin_spec(g: Option<GlobalConfig>) -> Seq<char> {
    match g {
        Some(g) => match g.ssh_bin {
            Some(b) => b@,
            None => "ssh"@,
        },
        None => "ssh"@,
    }
}

/// The settings for `host`. In order: an unknown host is an error; the cache
/// lives `cache_ttl_sec` seconds (default 300) at the configured path with
/// `~` expanded, else at `/run/user/<uid>/sshe/cache.toml`; then the host's
/// table is merged with the globals.
pub open spec fn resolve_host_spec(
    config: SsheConfig,
    host: Seq<char>,
    env: HostEnvironment,
) -> Result<FinalConfigView, Seq<char>> {
    match find(config.hosts@, host) {
        None => Err(crate::config::unknown_host_message(host)),
        Some(h) => match cache_path_spec(global_cache_path(config.global), env, "cache.toml"@) {
            Err(e) => Err(e),
            Ok(cache_path) => match merge_spec(config.global, h, opt_string_view(env.home)) {
                Err(e) => Err(e),
                Ok(m) => Ok(
                    FinalConfigView {
                        host_alias: host,
                        ssh_bin: ssh_bin_spec(config.global),
                        host: m,
                        cache_ttl_sec: pick(None, global_cache_ttl(config.global), 300),
                        cache_path,
                    },
                ),
            },
        },
    }
}

/// The first error of the global table, in the order it is checked.
pub open spec fn global_error(g: Option<GlobalConfig>) -> Option<Seq<char>> {
    match g {
        None => None,
        Some(g) => if g.probe_timeout_ms == Some(0u64) {
            Some("global probe_timeout_ms must be greater than 0"@)
        } else if g.probe_concurrency == Some(0usize) {
            Some("global probe_concurrency must be greater than 0"@)
        } else if g.cache_ttl_sec == Some(0u64) {
            Some("global cache_ttl_sec must be greater than 0"@)
        } else {
            None
        },
    }
}

/// The first error of one host's table, in the order it is checked. Every
/// port but 0 is accepted.
pub open spec fn host_error(name: Seq<char>, h: HostConfig) -> Option<Seq<char>> {
    if trim(h.user@).len() == 0 {
        Some("host '"@ + name + "' has empty user"@)
    } else if h.port == 0 {
        Some("host '"@ + name + "' has invalid port "@ + decimal(h.port as nat))
    } else if trim(h.identity_file@).len() == 0 {
        Some("host '"@ + name + "' has empty identity_file"@)
    } else if h.probe_timeout_ms == Some(0u64) {
        Some("host '"@ + name + "' probe_timeout_ms must be greater than 0"@)
    } else if h.endpoints@.len() == 0 {
        Some("host '"@ + name + "' must have at least one endpoint"@)
    } else {
        None
    }
}

/// The error of the first host, in key order, that has one.
pub open spec fn first_host_error(hosts: Seq<(Seq<char>, HostConfig)>) -> Option<Seq<char>>
    decreases hosts.len(),
{
    if hosts.len() == 0 {
        None
    } else {
        match host_error(hosts[0].0, hosts[0].1) {
            Some(e) => Some(e),
            None => first_host_error(hosts.drop_first()),
        }
    }
}

/// The first error of the configuration: the globals first, then that
/// there is a host at all, then the hosts in key order.
pub open spec fn validation_error(config: SsheConfig) -> Option<Seq<char>> {
    match global_error(config.global) {
        Some(e) => Some(e),
        None => if config.hosts@.len() == 0 {
            Some("at least one host configuration is required"@)
        } else {
            first_host_error(config.hosts@)
        },
    }
}

fn check_global(g: &Option<GlobalConfig>) -> (r: Option<String>)
    ensures
        match r {
            Some(e) => global_error(*g) == Some(e@),
            None => global_error(*g) is None,
        },
{
    match g {
        Some(g) => {
            if g.probe_timeout_ms == Some(0u64) {
                return Some(String::from_str("global probe_timeout_ms must be greater than 0"));
            }
            if g.probe_concurrency == Some(0usize) {
                return Some(String::from_str("global probe_concurrency must be greater than 0"));
            }
            if g.cache_ttl_sec == Some(0u64) {
                return Some(String::from_str("global cache_ttl_sec must be greater than 0"));
            }
            None
        },
        None => None,
    }
}

fn check_host(name: &str, h: &HostConfig) -> (r: Option<String>)
    ensures
        match r {
            Some(e) => host_error(name@, *h) == Some(e@),
            None => host_error(name@, *h) is None,
        },
{
    if is_blank(h.user.as_str()) {
        return Some(host_message(name, "' has empty user"));
    }
    if h.port == 0 {
        let mut m = host_message(name, "' has invalid port ");
        push_decimal(&mut m, h.port as u64);
        return Some(m);
    }
    if is_blank(h.identity_file.as_str()) {
        return Some(host_message(name, "' has empty identity_file"));
    }
    if h.probe_timeout_ms == Some(0u64) {
        return Some(host_message(name, "' probe_timeout_ms must be greater than 0"));
    }
    if h.endpoints.len() == 0 {
        return Some(host_message(name, "' must have at least one endpoint"));
    }
    None
}

/// The arguments ssh is run with to reach `endpoint`: the identity file,
/// the port, `user@endpoint`, then the caller's own arguments.
pub open spec fn ssh_arguments_spec(host: FinalHostView, endpoint: Seq<char>, extra: Seq<Seq<char>>) -> Seq<
    Seq<char>,
> {
    seq!["-i"@, host.identity_file, "-p"@, decimal(host.port as nat), host.user + "@"@ + endpoint]
        + extra
}

impl FinalConfig {
    /// The arguments to run `self.ssh_bin` with, to reach `endpoint` and
    /// hand on `ssh_args`.
    pub fn ssh_arguments(&self, endpoint: &str, ssh_args: &Vec<String>) -> (r: Vec<String>)
        ensures
            views(r@) == ssh_arguments_spec(self.host@, endpoint@, views(ssh_args@)),
    {
        let mut r: Vec<String> = Vec::new();
        r.push(String::from_str("-i"));
        r.push(self.host.identity_file.clone());
        r.push(String::from_str("-p"));
        r.push(crate::text::u64_to_decimal(self.host.port as u64));
        r.push(concat3(self.host.user.as_str(), "@", endpoint));
        let ghost head = views(r@);
        assert(head =~= seq![
            "-i"@,
            self.host.identity_file@,
            "-p"@,
            decimal(self.host.port as nat),
            self.host.user@ + "@"@ + endpoint@,
        ]);
        let n = ssh_args.len();
        let mut i: usize = 0;
        while i < n
            invariant
                i <= n,
                n == ssh_args@.len(),
                r@.len() == 5 + i,
                head.len() == 5,
                forall|k: int| 0 <= k < 5 ==> #[trigger] r@[k]@ == head[k],
                forall|k: int| 0 <= k < i ==> #[trigger] r@[5 + k]@ == ssh_args@[k]@,
            decreases n - i,
        {
            r.push(ssh_args[i].clone());
            i = i + 1;
        }
        assert(views(r@) =~= head + views(ssh_args@)) by {
            assert forall|k: int| 0 <= k < r@.len() implies #[trigger] views(r@)[k] == (head + views(
                ssh_args@,
            ))[k] by {
                if k >= 5 {
                    assert(r@[5 + (k - 5)]@ == ssh_args@[k - 5]@);
                }
            }
        }
        r
    }
}

impl SsheConfig {
    /// The settings for the host named `host`, given what is known of the
    /// running system.
    pub fn resolve_host(&self, host: &str, env: &HostEnvironment) -> (r: Result<
        FinalConfig,
        String,
    >)
        ensures
            final_result_view(r) == resolve_host_spec(*self, host@, *env),
    {
        let host_config = match self.hosts.get(host) {
            Some(h) => h,
            None => return Err(concat3("no configuration found for host '", host, "'")),
        };
        let global = match &self.global {
            Some(g) => Some(g),
            None => None,
        };
        let ssh_bin = match global {
            Some(g) => match &g.ssh_bin {
                Some(b) => b.clone(),
                None => String::from_str("ssh"),
            },
            None => String::from_str("ssh"),
        };
        let ttl_sec = match global {
            Some(g) => match g.cache_ttl_sec {
                Some(t) => t,
                None => 300,
            },
            None => 300,
        };
        let configured = match global {
            Some(g) => match &g.cache_path {
                Some(p) => Some(p.as_str()),
                None => None,
            },
            None => None,
        };
        let path = match resolve_cache_path(configured, env, "cache.toml") {
            Ok(p) => p,
            Err(e) => return Err(e),
        };
        let home = match &env.home {
            Some(h) => Some(h.as_str()),
            None => None,
        };
        let merged = match merge_host_config(global, host_config, home) {
            Ok(h) => h,
            Err(e) => return Err(e),
        };
        Ok(
            FinalConfig {
                host_alias: String::from_str(host),
                ssh_bin,
                host: merged,
                cache: CacheConfig { ttl_sec, path },
            },
        )
    }

    /// Checks the configuration; the error names the first problem found.
    pub fn validate(&self) -> (r: Result<(), String>)
        ensures
            match r {
                Ok(()) => validation_error(*self) is None,
                Err(e) => validation_error(*self) == Some(e@),
            },
            r is Ok ==> forall|i: int|
                0 <= i < self.hosts@.len() ==> trim((#[trigger] self.hosts@[i]).1.user@).len() > 0
                    && trim(self.hosts@[i].1.identity_file@).len() > 0 && self.hosts@[i].1.endpoints@.len()
                    > 0 && self.hosts@[i].1.probe_timeout_ms != Some(0u64),
    {
        if let Some(e) = check_global(&self.global) {
            return Err(e);
        }
        if self.hosts.is_empty() {
            return Err(String::from_str("at least one host configuration is required"));
        }
        let n = self.hosts.len();
        let mut i: usize = 0;
        assert(self.hosts@.skip(0) =~= self.hosts@);
        while i < n
            invariant
                i <= n,
                n == self.hosts@.len(),
                n > 0,
                global_error(self.global) is None,
                first_host_error(self.hosts@) == first_host_error(self.hosts@.skip(i as int)),
            decreases n - i,
        {
            let (name, host) = self.hosts.entry_at(i);
            assert(self.hosts@.skip(i as int)[0] == self.hosts@[i as int]);
            assert(self.hosts@.skip(i as int).drop_first() =~= self.hosts@.skip(i + 1));
            let checked = check_host(name.as_str(), host);
            assert(self.hosts@.skip(i as int).len() > 0);
            assert(first_host_error(self.hosts@.skip(i as int)) == match host_error(name@, *host) {
                Some(e) => Some(e),
                None => first_host_error(self.hosts@.skip(i + 1)),
            });
            if let Some(e) = checked {
                return Err(e);
            }
            i = i + 1;
        }
        proof {
            lemma_validated_hosts(*self);
        }
        Ok(())
    }
}

/// No host has an error where none is first to have one.
proof fn lemma_no_host_error(hosts: Seq<(Seq<char>, HostConfig)>)
    requires
        first_host_error(hosts) is None,
    ensures
        forall|i: int| 0 <= i < hosts.len() ==> host_error((#[trigger] hosts[i]).0, hosts[i].1) is None,
    decreases hosts.len(),
{
    if hosts.len() > 0 {
        lemma_no_host_error(hosts.drop_first());
        assert forall|i: int| 0 <= i < hosts.len() implies host_error((#[trigger] hosts[i]).0, hosts[i].1) is None by {
            if i > 0 {
                assert(hosts[i] == hosts.drop_first()[i - 1]);
            }
        }
    }
}

/// A configuration that validates resolves every host to a user that is not
/// blank, a non-zero port, at least one endpoint, a positive probe timeout,
/// a positive number of concurrent probes and a positive cache lifetime,
/// and, unless the identity file is just `~` (the home directory itself),
/// an identity file that is not blank.
pub proof fn lemma_validated_host_settings(config: SsheConfig, host: Seq<char>, env: HostEnvironment)
    requires
        validation_error(config) is None,
        resolve_host_spec(config, host, env) is Ok,
    ensures
        resolve_host_spec(config, host, env)->Ok_0.host.probe_timeout_ms > 0,
        resolve_host_spec(config, host, env)->Ok_0.host.endpoints.len() > 0,
        resolve_host_spec(config, host, env)->Ok_0.host.port != 0,
        trim(resolve_host_spec(config, host, env)->Ok_0.host.user).len() > 0,
        resolve_host_spec(config, host, env)->Ok_0.host.probe_concurrency > 0,
        resolve_host_spec(config, host, env)->Ok_0.cache_ttl_sec > 0,
        find(config.hosts@, host)->0.identity_file@ != seq!['~'] ==> trim(resolve_host_spec(config, host, env)->Ok_0.host.identity_file).len() > 0,
{
    crate::strmap::lemma_find_entry(config.hosts@, host);
    lemma_no_host_error(config.hosts@);
    let i = choose|i: int| 0 <= i < config.hosts@.len() && #[trigger] config.hosts@[i] == (host, find(config.hosts@, host)->0);
    assert(host_error(config.hosts@[i].0, config.hosts@[i].1) is None);
    let id = find(config.hosts@, host)->0.identity_file@;
    assert(config.hosts@[i].1 == find(config.hosts@, host)->0);
    let resolved = resolve_host_spec(config, host, env)->Ok_0.host.identity_file;
    if id != seq!['~'] {
        lemma_blank_iff_all_white_space(resolved);
        if id.len() >= 2 && id[0] == '~' && id[1] == '/' {
            reveal_strlit("/");
            let hm = opt_string_view(env.home)->0;
            assert(resolved == hm + "/"@ + id.skip(2));
            assert(resolved[hm.len() as int] == '/');
        } else {
            if id.len() == 1 && id[0] == '~' {
                assert(id =~= seq!['~']);
            }
            assert(resolved == id);
        }
    }
}

/// Every host of a configuration that validates has a user and an
/// identity file that are not blank, an accepted port, no zero probe
/// timeout and at least one endpoint.
pub proof fn lemma_validated_hosts(config: SsheConfig)
    requires
        validation_error(config) is None,
    ensures
        forall|i: int| 0 <= i < config.hosts@.len() ==> trim((#[trigger] config.hosts@[i]).1.user@).len() > 0,
        forall|i: int| 0 <= i < config.hosts@.len() ==> (#[trigger] config.hosts@[i]).1.port != 0,
        forall|i: int| 0 <= i < config.hosts@.len() ==> trim((#[trigger] config.hosts@[i]).1.identity_file@).len() > 0,
        forall|i: int| 0 <= i < config.hosts@.len() ==> (#[trigger] config.hosts@[i]).1.probe_timeout_ms != Some(0u64),
        forall|i: int| 0 <= i < config.hosts@.len() ==> (#[trigger] config.hosts@[i]).1.endpoints@.len() > 0,
{
    lemma_no_host_error(config.hosts@);
}

} // verus!
