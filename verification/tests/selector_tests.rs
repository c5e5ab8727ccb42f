use sshe::config::{FinalHostConfig, SelectionMode};
use sshe::selector::{ping_latency_text, select_best_endpoint};
use sshe::sshe::config as client;
use sshe::sshe::selector::{self as client_selector, ProbeOutcome, ProbeSource};
use sshe::ssher::selector::{self as race, ProbeRace};

fn ping_latency(stdout: &str) -> Option<u128> {
    let text = ping_latency_text(stdout)?;
    let value = text.parse::<f64>().ok()?;
    Some(value.round() as u128)
}

#[test]
fn selector_parses_ping_output() {
    let sample = "64 bytes from 1.1.1.1: icmp_seq=1 ttl=57 time=12.7 ms\n\n--- 1.1.1.1 ping statistics ---";
    assert_eq!(ping_latency(sample), Some(13));
    assert_eq!(ping_latency_text(sample).as_deref(), Some("12.7"));
}

#[test]
fn ping_text_edge_cases() {
    assert_eq!(ping_latency_text("no timing here"), None);
    assert_eq!(ping_latency_text("time=5"), None);
    assert_eq!(ping_latency_text("time= 0.045ms").as_deref(), Some("0.045"));
    assert_eq!(ping_latency_text("rtt time=7 ms time=9 ms").as_deref(), Some("7"));
    assert_eq!(ping_latency_text("time=ms").as_deref(), Some(""));
}

fn wrapper_host(endpoints: &[&str]) -> FinalHostConfig {
    FinalHostConfig {
        user: "u".to_string(),
        port: 22,
        identity_file: "/k".to_string(),
        probe_timeout_ms: 500,
        selection_mode: SelectionMode::LowestTcpLatency,
        endpoints: endpoints.iter().map(|e| e.to_string()).collect(),
    }
}

#[test]
fn wrapper_selects_first_lowest_latency() {
    let host = wrapper_host(&["a", "b", "c", "d"]);
    let probes = vec![Ok(30), Err("x".to_string()), Ok(10), Ok(10)];
    let best = select_best_endpoint(&host, &probes).unwrap();
    assert_eq!(best.endpoint, "c");
    assert_eq!(best.latency_ms, 10);
}

#[test]
fn wrapper_reports_last_error_or_no_endpoint() {
    let host = wrapper_host(&["a", "b"]);
    let probes = vec![Err("connect failed: refused".to_string()), Err("resolve failed: boom".to_string())];
    assert_eq!(select_best_endpoint(&host, &probes).unwrap_err(), "b:22 -> resolve failed: boom");
    let none = wrapper_host(&[]);
    assert_eq!(select_best_endpoint(&none, &Vec::new()).unwrap_err(), "no reachable endpoint found");
}

fn client_host(endpoints: &[&str]) -> client::FinalHostConfig {
    client::FinalHostConfig {
        user: "u".to_string(),
        port: 2022,
        identity_file: "/k".to_string(),
        probe_timeout_ms: 500,
        probe_concurrency: 4,
        selection_mode: client::SelectionMode::LowestIcmpLatency,
        endpoints: endpoints.iter().map(|e| e.to_string()).collect(),
    }
}

#[test]
fn client_selects_lowest_and_joins_errors() {
    let host = client_host(&["a", "b", "c"]);
    let outcomes = vec![
        ProbeOutcome::Failed("ping failed".to_string()),
        ProbeOutcome::Measured(40),
        ProbeOutcome::Measured(20),
    ];
    let best = client_selector::select_best_endpoint(&host, &outcomes).unwrap();
    assert_eq!(best.endpoint, "c");
    assert_eq!(best.latency_ms, 20);
    assert_eq!(best.source, ProbeSource::Probe);

    let outcomes = vec![
        ProbeOutcome::Failed("ping failed".to_string()),
        ProbeOutcome::TaskFailed("panicked".to_string()),
        ProbeOutcome::Failed("connect timeout".to_string()),
    ];
    assert_eq!(
        client_selector::select_best_endpoint(&host, &outcomes).unwrap_err(),
        "a:2022 -> ping failed; probe task failed: panicked; c:2022 -> connect timeout"
    );
    let empty = client_host(&[]);
    assert_eq!(
        client_selector::select_best_endpoint(&empty, &Vec::new()).unwrap_err(),
        "no reachable endpoint found"
    );
}

#[test]
fn race_first_success_wins() {
    let mut state = ProbeRace::new();
    assert!(state.on_probe_finished("a", 22, &Err("connect timeout".to_string())).is_none());
    let won = state.on_probe_finished("b", 22, &Ok(7)).expect("a success ends the race");
    assert_eq!(won.endpoint, "b");
    assert_eq!(won.latency_ms, 7);
    assert_eq!(won.source, race::ProbeSource::Probe);
}

#[test]
fn race_errors_in_finishing_order() {
    let mut state = ProbeRace::new();
    assert_eq!(state.into_error(), "no reachable endpoint found");
    state.on_probe_finished("b", 22, &Err("connect failed".to_string()));
    state.on_probe_finished("a", 22, &Err("resolve failed for a:22".to_string()));
    assert_eq!(state.into_error(), "b:22 -> connect failed; a:22 -> resolve failed for a:22");
}
