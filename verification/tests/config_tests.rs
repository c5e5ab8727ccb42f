use sshe::config as wrapper;
use sshe::paths::HostEnvironment;
use sshe::sshe::config as client;
use sshe::sshea::config::SsheaConfig;
use sshe::sshed::config::SshedConfig;
use sshe::ssher::config as ssher_config;
use sshe::strmap::StrMap;

fn endpoints(list: &[&str]) -> Vec<String> {
    list.iter().map(|s| s.to_string()).collect()
}

#[test]
fn config_merge_uses_defaults_without_global() {
    // the `sshe` wrapper
    {
        let host = wrapper::HostConfig {
            user: "alice".to_string(),
            port: 22,
            identity_file: "/tmp/id_rsa".to_string(),
            probe_timeout_ms: None,
            selection_mode: None,
            endpoints: vec!["127.0.0.1".to_string()],
        };

        let merged = wrapper::merge_host_config(None, &host, None).expect("merge should succeed");

        assert_eq!(merged.probe_timeout_ms, 500);
        assert!(matches!(merged.selection_mode, wrapper::SelectionMode::LowestTcpLatency));
    }
    // the `sshe` client
    {
        let host = client::HostConfig {
            user: "alice".to_string(),
            port: 22,
            identity_file: "/tmp/id_rsa".to_string(),
            probe_timeout_ms: None,
            selection_mode: None,
            endpoints: vec!["127.0.0.1".to_string()],
        };

        let merged = client::merge_host_config(None, &host, None).expect("merge should succeed");

        assert_eq!(merged.probe_timeout_ms, 500);
        assert_eq!(merged.probe_concurrency, 4);
        assert!(matches!(merged.selection_mode, client::SelectionMode::LowestTcpLatency));
    }
    // `ssher`
    {
        let host = ssher_config::HostConfig {
            probe_timeout_ms: None,
            selection_mode: None,
            endpoints: vec!["127.0.0.1".to_string()],
        };

        let merged = ssher_config::merge_host_config(None, &host).expect("merge should succeed");

        assert_eq!(merged.probe_timeout_ms, 500);
        assert!(matches!(merged.selection_mode, ssher_config::SelectionMode::LowestTcpLatency));
    }
}

#[test]
fn config_default_cache_path_uses_run_user_uid() {
    let env = HostEnvironment { home: None, uid_output: Ok("1000\n".to_string()) };
    let path = sshe::paths::resolve_cache_path(None, &env, "ssher_cache.toml")
        .expect("path should resolve");
    assert!(path.contains("/run/user/"));
    assert!(path.ends_with("/sshe/ssher_cache.toml"));
    assert_eq!(path, "/run/user/1000/sshe/ssher_cache.toml");

    let path = sshe::paths::resolve_cache_path(None, &env, "cache.toml").expect("path should resolve");
    assert!(path.contains("/run/user/"));
    assert!(path.ends_with("/sshe/cache.toml"));
}

#[test]
fn config_resolve_uses_defaults() {
    // `sshea`
    {
        let config = SsheaConfig {
            server_addr: None,
            token_file: Some("/tmp/token".to_string()),
            client_name: None,
        };

        let resolved = config.resolve(None).expect("resolve should succeed");

        assert_eq!(resolved.server_addr, "127.0.0.1:8022");
        assert_eq!(resolved.client_name, "sshea");
    }
    // `sshed`
    {
        let config = SshedConfig {
            listen_addr: None,
            token_file: Some("/tmp/token".to_string()),
            capabilities: None,
        };

        let resolved = config.resolve(None).expect("resolve should succeed");

        assert_eq!(resolved.listen_addr, "127.0.0.1:8022");
        assert_eq!(resolved.capabilities, vec!["hello.v1".to_string()]);
    }
}

#[test]
fn read_token_rejects_empty_file() {
    let err = sshe::sshed::config::token_from_contents("/tmp/sshed-empty-token.txt", " \n")
        .expect_err("empty token should fail");
    assert!(err.contains("is empty"));
    assert_eq!(err, "token file /tmp/sshed-empty-token.txt is empty");
}

#[test]
fn token_is_trimmed() {
    let token = sshe::sshed::config::token_from_contents("/t", "\t secret-token \n").unwrap();
    assert_eq!(token, "secret-token");
}

fn ssher_hosts_with_single_endpoint() -> StrMap<ssher_config::HostConfig> {
    let mut hosts = StrMap::new();
    hosts.insert(
        "my-pc".to_string(),
        ssher_config::HostConfig {
            probe_timeout_ms: None,
            selection_mode: None,
            endpoints: vec!["127.0.0.1".to_string()],
        },
    );
    hosts
}

#[test]
fn validate_rejects_zero_global_cache_ttl() {
    let config = ssher_config::SsherConfig {
        global: Some(ssher_config::GlobalConfig {
            probe_timeout_ms: None,
            cache_ttl_sec: Some(0),
            cache_path: None,
            selection_mode: None,
        }),
        hosts: ssher_hosts_with_single_endpoint(),
    };

    let err = config.validate().expect_err("zero cache_ttl_sec should fail");
    assert!(err.contains("global cache_ttl_sec must be greater than 0"));
}

#[test]
fn validate_rejects_zero_host_probe_timeout() {
    let mut hosts = StrMap::new();
    hosts.insert(
        "my-pc".to_string(),
        ssher_config::HostConfig {
            probe_timeout_ms: Some(0),
            selection_mode: None,
            endpoints: vec!["127.0.0.1".to_string()],
        },
    );

    let config = ssher_config::SsherConfig { global: None, hosts };

    let err = config.validate().expect_err("zero host probe_timeout_ms should fail");
    assert!(err.contains("host 'my-pc' probe_timeout_ms must be greater than 0"));
}

#[test]
fn validate_rejects_empty_endpoints() {
    let mut hosts = StrMap::new();
    hosts.insert(
        "my-pc".to_string(),
        ssher_config::HostConfig { probe_timeout_ms: None, selection_mode: None, endpoints: Vec::new() },
    );

    let config = ssher_config::SsherConfig { global: None, hosts };

    let err = config.validate().expect_err("empty endpoints should fail");
    assert!(err.contains("host 'my-pc' must have at least one endpoint"));
}

fn wrapper_host(user: &str, port: u16, identity: &str, eps: &[&str]) -> wrapper::HostConfig {
    wrapper::HostConfig {
        user: user.to_string(),
        port,
        identity_file: identity.to_string(),
        probe_timeout_ms: None,
        selection_mode: None,
        endpoints: endpoints(eps),
    }
}

#[test]
fn wrapper_validate_reports_first_failing_host_in_key_order() {
    let mut hosts = StrMap::new();
    hosts.insert("zeta".to_string(), wrapper_host("bob", 22, "/k", &[]));
    hosts.insert("alpha".to_string(), wrapper_host("  ", 22, "/k", &["a"]));
    let config = wrapper::SsheConfig { global: None, hosts };
    assert_eq!(config.validate().unwrap_err(), "host 'alpha' has empty user");
}

#[test]
fn wrapper_validate_port_range() {
    for (port, ok) in [(0u16, false), (1, true), (22, true), (65533, true), (65534, false), (65535, false)] {
        let mut hosts = StrMap::new();
        hosts.insert("h".to_string(), wrapper_host("u", port, "/k", &["e"]));
        let config = wrapper::SsheConfig { global: None, hosts };
        let r = config.validate();
        assert_eq!(r.is_ok(), ok, "port {port}");
        if !ok {
            assert_eq!(r.unwrap_err(), format!("host 'h' has invalid port {port}"));
        }
    }
}

#[test]
fn wrapper_validate_errors() {
    let empty = wrapper::SsheConfig { global: None, hosts: StrMap::new() };
    assert_eq!(empty.validate().unwrap_err(), "at least one host configuration is required");

    let global = |timeout, concurrency| wrapper::GlobalConfig {
        ssh_bin: None,
        probe_timeout_ms: timeout,
        probe_concurrency: concurrency,
        cache_ttl_sec: None,
        cache_path: None,
        selection_mode: None,
    };
    let mut hosts = StrMap::new();
    hosts.insert("h".to_string(), wrapper_host("u", 22, "/k", &["e"]));
    let c = wrapper::SsheConfig { global: Some(global(Some(0), Some(0))), hosts };
    assert_eq!(c.validate().unwrap_err(), "global probe_timeout_ms must be greater than 0");

    let mut hosts = StrMap::new();
    hosts.insert("h".to_string(), wrapper_host("u", 22, "/k", &["e"]));
    let c = wrapper::SsheConfig { global: Some(global(None, Some(0))), hosts };
    assert_eq!(c.validate().unwrap_err(), "global probe_concurrency must be greater than 0");

    let mut hosts = StrMap::new();
    hosts.insert("h".to_string(), wrapper_host("u", 22, " \t", &["e"]));
    let c = wrapper::SsheConfig { global: None, hosts };
    assert_eq!(c.validate().unwrap_err(), "host 'h' has empty identity_file");

    let mut hosts = StrMap::new();
    let mut h = wrapper_host("u", 22, "/k", &["e"]);
    h.probe_timeout_ms = Some(0);
    hosts.insert("h".to_string(), h);
    let c = wrapper::SsheConfig { global: None, hosts };
    assert_eq!(c.validate().unwrap_err(), "host 'h' probe_timeout_ms must be greater than 0");

    let mut hosts = StrMap::new();
    hosts.insert("h".to_string(), wrapper_host("u", 22, "/k", &["e"]));
    let c = wrapper::SsheConfig { global: Some(global(Some(100), Some(2))), hosts };
    assert!(c.validate().is_ok());
}

#[test]
fn client_validate_errors() {
    let host = |user: &str, port: u16| client::HostConfig {
        user: user.to_string(),
        port,
        identity_file: "/k".to_string(),
        probe_timeout_ms: None,
        selection_mode: None,
        endpoints: vec!["e".to_string()],
    };
    let mut hosts = StrMap::new();
    hosts.insert("h".to_string(), host("u", 65535));
    let c = client::SsheConfig {
        global: Some(client::GlobalConfig {
            ssh_bin: None,
            probe_timeout_ms: None,
            probe_concurrency: None,
            cache_ttl_sec: Some(0),
            cache_path: None,
            selection_mode: None,
        }),
        hosts,
    };
    assert_eq!(c.validate().unwrap_err(), "global cache_ttl_sec must be greater than 0");

    let mut hosts = StrMap::new();
    hosts.insert("h".to_string(), host("u", 65535));
    let c = client::SsheConfig { global: None, hosts };
    assert!(c.validate().is_ok());

    let mut hosts = StrMap::new();
    hosts.insert("h".to_string(), host("u", 0));
    let c = client::SsheConfig { global: None, hosts };
    assert_eq!(c.validate().unwrap_err(), "host 'h' has invalid port 0");
}

#[test]
fn wrapper_resolve_host() {
    let mut hosts = StrMap::new();
    let mut h = wrapper_host("alice", 2222, "~/.ssh/id", &["10.0.0.1", "pc.lan"]);
    h.selection_mode = None;
    hosts.insert("pc".to_string(), h);
    let c = wrapper::SsheConfig {
        global: Some(wrapper::GlobalConfig {
            ssh_bin: Some("/usr/bin/ssh".to_string()),
            probe_timeout_ms: Some(900),
            probe_concurrency: None,
            cache_ttl_sec: None,
            cache_path: None,
            selection_mode: Some(wrapper::SelectionMode::LowestIcmpLatency),
        }),
        hosts,
    };
    let f = c.resolve_host("pc", Some("/home/alice")).unwrap();
    assert_eq!(f.ssh_bin, "/usr/bin/ssh");
    assert_eq!(f.host.user, "alice");
    assert_eq!(f.host.port, 2222);
    assert_eq!(f.host.identity_file, "/home/alice/.ssh/id");
    assert_eq!(f.host.probe_timeout_ms, 900);
    assert_eq!(f.host.selection_mode, wrapper::SelectionMode::LowestIcmpLatency);
    assert_eq!(f.host.endpoints, endpoints(&["10.0.0.1", "pc.lan"]));

    assert_eq!(c.resolve_host("nope", None).unwrap_err(), "no configuration found for host 'nope'");
    assert_eq!(c.resolve_host("pc", None).unwrap_err(), "HOME is not set");
}

#[test]
fn client_resolve_host_fills_cache_settings() {
    let mut hosts = StrMap::new();
    hosts.insert(
        "pc".to_string(),
        client::HostConfig {
            user: "bob".to_string(),
            port: 22,
            identity_file: "/id".to_string(),
            probe_timeout_ms: Some(50),
            selection_mode: None,
            endpoints: vec!["a".to_string()],
        },
    );
    let mut c = client::SsheConfig { global: None, hosts };
    let env = HostEnvironment { home: Some("/home/bob".to_string()), uid_output: Ok(" 1001 \n".to_string()) };
    let f = c.resolve_host("pc", &env).unwrap();
    assert_eq!(f.host_alias, "pc");
    assert_eq!(f.ssh_bin, "ssh");
    assert_eq!(f.cache.ttl_sec, 300);
    assert_eq!(f.cache.path, "/run/user/1001/sshe/cache.toml");
    assert_eq!(f.host.probe_timeout_ms, 50);
    assert_eq!(f.host.probe_concurrency, 4);

    c.global = Some(client::GlobalConfig {
        ssh_bin: None,
        probe_timeout_ms: None,
        probe_concurrency: Some(8),
        cache_ttl_sec: Some(60),
        cache_path: Some("~/cache.toml".to_string()),
        selection_mode: None,
    });
    let f = c.resolve_host("pc", &env).unwrap();
    assert_eq!(f.cache.ttl_sec, 60);
    assert_eq!(f.cache.path, "/home/bob/cache.toml");
    assert_eq!(f.host.probe_concurrency, 8);

    let broken = HostEnvironment { home: None, uid_output: Err("failed to parse user ID".to_string()) };
    assert_eq!(c.resolve_host("pc", &broken).unwrap_err(), "HOME is not set");
    c.global = None;
    assert_eq!(c.resolve_host("pc", &broken).unwrap_err(), "failed to parse user ID");
}

#[test]
fn ssher_resolve_host() {
    let c = ssher_config::SsherConfig { global: None, hosts: ssher_hosts_with_single_endpoint() };
    let env = HostEnvironment { home: None, uid_output: Ok("0".to_string()) };
    let f = c.resolve_host("my-pc", &env).unwrap();
    assert_eq!(f.host_alias, "my-pc");
    assert_eq!(f.cache.path, "/run/user/0/sshe/ssher_cache.toml");
    assert_eq!(f.cache.ttl_sec, 300);
    assert_eq!(f.host.endpoints, vec!["127.0.0.1".to_string()]);
    assert!(c.resolve_host("other", &env).is_err());
}

#[test]
fn ssh_arguments_carry_identity_port_and_destination() {
    let f = client::FinalConfig {
        host_alias: "pc".to_string(),
        ssh_bin: "ssh".to_string(),
        host: client::FinalHostConfig {
            user: "carol".to_string(),
            port: 2200,
            identity_file: "/id".to_string(),
            probe_timeout_ms: 500,
            probe_concurrency: 4,
            selection_mode: client::SelectionMode::LowestTcpLatency,
            endpoints: vec!["10.1.1.1".to_string()],
        },
        cache: client::CacheConfig { ttl_sec: 300, path: "/c".to_string() },
    };
    let args = f.ssh_arguments("10.1.1.1", &vec!["-v".to_string(), "uptime".to_string()]);
    assert_eq!(args, vec!["-i", "/id", "-p", "2200", "carol@10.1.1.1", "-v", "uptime"]);
}

#[test]
fn sshea_overrides_and_default_token_path() {
    let c = SsheaConfig { server_addr: Some("10.0.0.2:9000".to_string()), token_file: None, client_name: Some("bot".to_string()) };
    let f = c.resolve(Some("/home/d")).unwrap();
    assert_eq!(f.token_file, "/home/d/.config/sshe/sshed.token");
    assert_eq!(f.server_addr, "10.0.0.2:9000");
    assert_eq!(f.client_name, "bot");
    let f = f.with_overrides(None, Some("/t".to_string()));
    assert_eq!(f.token_file, "/t");
    assert_eq!(f.server_addr, "10.0.0.2:9000");

    let c = SsheaConfig { server_addr: None, token_file: None, client_name: None };
    assert_eq!(c.resolve(None).unwrap_err(), "HOME is not set");
}
