use sshe::args::Args;
use sshe::paths::{expand_tilde, path_join};
use sshe::strmap::{key_order, KeyOrder, StrMap};
use sshe::text::{is_blank, join_strings, trim_str, u64_to_decimal};

#[test]
fn decimal_rendering() {
    assert_eq!(u64_to_decimal(0), "0");
    assert_eq!(u64_to_decimal(7), "7");
    assert_eq!(u64_to_decimal(1048576), "1048576");
    assert_eq!(u64_to_decimal(u64::MAX), u64::MAX.to_string());
}

#[test]
fn trimming_matches_str_trim() {
    for s in ["", "  ", " a ", "\u{3000}x\u{a0}", "\n\tabc def\r\n", "x", "\u{85}"] {
        assert_eq!(trim_str(s), s.trim());
        assert_eq!(is_blank(s), s.trim().is_empty());
    }
}

#[test]
fn joining() {
    let parts = vec!["a".to_string(), "bc".to_string(), "".to_string()];
    assert_eq!(join_strings(&parts, "; "), parts.join("; "));
    assert_eq!(join_strings(&Vec::new(), ","), "");
}

#[test]
fn tilde_expansion() {
    assert_eq!(expand_tilde("~", Some("/home/e")).unwrap(), "/home/e");
    assert_eq!(expand_tilde("~/.ssh/id", Some("/home/e")).unwrap(), "/home/e/.ssh/id");
    assert_eq!(expand_tilde("~x/id", None).unwrap(), "~x/id");
    assert_eq!(expand_tilde("/abs", None).unwrap(), "/abs");
    assert_eq!(expand_tilde("~/id", None).unwrap_err(), "HOME is not set");
}

#[test]
fn path_joining_follows_path_join() {
    for (base, rel) in [("/home/f", ".ssh/x"), ("/home/f/", ".ssh/x"), ("", "a"), ("/h", "/abs")] {
        let expected = std::path::Path::new(base).join(rel);
        assert_eq!(path_join(base, rel), expected.to_str().unwrap());
    }
}

#[test]
fn key_order_is_string_order() {
    for (a, b) in [("a", "b"), ("ab", "a"), ("", ""), ("é", "z"), ("my-pc", "my-pc")] {
        let expected = a.cmp(b);
        let got = match key_order(a, b) {
            KeyOrder::Less => std::cmp::Ordering::Less,
            KeyOrder::Equal => std::cmp::Ordering::Equal,
            KeyOrder::Greater => std::cmp::Ordering::Greater,
        };
        assert_eq!(got, expected, "{a} vs {b}");
    }
}

#[test]
fn strmap_keeps_keys_sorted_and_unique() {
    let mut m = StrMap::new();
    for (k, v) in [("pc", 1), ("laptop", 2), ("zz", 3), ("pc", 4), ("a", 5)] {
        m.insert(k.to_string(), v);
    }
    assert_eq!(m.len(), 4);
    let keys: Vec<String> = (0..m.len()).map(|i| m.entry_at(i).0.clone()).collect();
    assert_eq!(keys, vec!["a", "laptop", "pc", "zz"]);
    assert_eq!(m.get("pc"), Some(&4));
    assert_eq!(m.get("nope"), None);
    assert!(!m.is_empty());
}

#[test]
fn config_paths_default_places() {
    let args = Args { config_file: None, verbose: false, host_name: "pc".to_string(), ssh_args: vec![] };
    let c = args.config_path_candidates(Some("/home/g")).unwrap();
    assert_eq!(c, vec!["/home/g/.ssh/sshe.toml", "/home/g/.config/sshe.toml", "/home/g/.config/sshe/config.toml"]);
    assert_eq!(args.resolve_config_path(&c, &vec![false, true, true]).unwrap(), "/home/g/.config/sshe.toml");
    assert_eq!(
        args.resolve_config_path(&c, &vec![false, false, false]).unwrap_err(),
        "default config file does not exist: /home/g/.ssh/sshe.toml /home/g/.config/sshe.toml /home/g/.config/sshe/config.toml"
    );
    assert_eq!(
        args.config_path_candidates(None).unwrap_err(),
        "HOME is not set, cannot determine default config path"
    );
}

#[test]
fn config_paths_explicit_file() {
    let args = sshe::ssher::args::Args {
        config_file: Some("/etc/ssher.toml".to_string()),
        refresh_cache: false,
        verbose: false,
        host: "pc".to_string(),
        port: 22,
    };
    let c = args.config_path_candidates(None).unwrap();
    assert_eq!(c, vec!["/etc/ssher.toml"]);
    assert_eq!(args.resolve_config_path(&c, &vec![true]).unwrap(), "/etc/ssher.toml");
    assert_eq!(
        args.resolve_config_path(&c, &vec![false]).unwrap_err(),
        "config file does not exist or is not a regular file: /etc/ssher.toml"
    );
    assert!(args.check_port().is_ok());
    let zero = sshe::ssher::args::Args { port: 0, ..args };
    assert_eq!(zero.check_port().unwrap_err(), "--port must be between 1 and 65535");

    let sshed = sshe::sshed::args::Args { config_file: None, verbose: true };
    let c = sshed.config_path_candidates(Some("/h")).unwrap();
    assert_eq!(
        sshed.resolve_config_path(&c, &vec![false, false, false]).unwrap_err(),
        "default config file does not exist: /h/.ssh/sshed.toml, /h/.config/sshed.toml, /h/.config/sshe/sshed_config.toml"
    );
}
