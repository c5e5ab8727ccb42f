//! Endpoint selection for the `sshe` wrapper: picking the endpoint with the
//! lowest measured latency, and reading the latency out of `ping` output.

use vstd::prelude::*;

use crate::config::FinalHostConfig;
use crate::text::{concat2, decimal, find_spec, find_str, push_decimal, trim, trim_str};

verus! {

/// The endpoint chosen for a host and its measured latency.
#[derive(Debug)]
pub struct ProbeResult {
    pub endpoint: String,
    pub latency_ms: u128,
}

/// `i` holds a measured latency that no other measurement undercuts, and
/// every measurement before `i` is strictly higher.
pub open spec fn first_lowest(lat: Seq<Option<u128>>, i: int) -> bool {
    &&& 0 <= i < lat.len()
    &&& lat[i] is Some
    &&& forall|j: int| 0 <= j < lat.len() && (#[trigger] lat[j]) is Some ==> lat[i]->0 <= lat[j]->0
    &&& forall|j: int| 0 <= j < i && (#[trigger] lat[j]) is Some ==> lat[i]->0 < lat[j]->0
}

/// The position of the first lowest measured latency, if any was measured.
pub fn lowest_latency(lat: &Vec<Option<u128>>) -> (r: Option<usize>)
    ensures
        match r {
            Some(i) => first_lowest(lat@, i as int),
            None => forall|j: int| 0 <= j < lat@.len() ==> (#[trigger] lat@[j]) is None,
        },
{
    let n = lat.len();
    let mut best: Option<usize> = None;
    let mut i: usize = 0;
    while i < n
        invariant
            i <= n,
            n == lat@.len(),
            match best {
                Some(b) => first_lowest(lat@.take(i as int), b as int),
                None => forall|j: int| 0 <= j < i ==> (#[trigger] lat@[j]) is None,
            },
        decreases n - i,
    {
        let ghost prefix = lat@.take(i as int);
        let ghost next = lat@.take(i + 1);
        assert forall|j: int| 0 <= j < i implies #[trigger] next[j] == prefix[j] by {}
        assert(next[i as int] == lat@[i as int]);
        match lat[i] {
            Some(l) => {
                match best {
                    Some(b) => {
                        let bl = match lat[b] {
                            Some(v) => v,
                            None => 0,
                        };
                        assert(prefix[b as int] == lat@[b as int]);
                        if l < bl {
                            best = Some(i);
                        }
                    },
                    None => {
                        best = Some(i);
                    },
                }
            },
            None => {},
        }
        i = i + 1;
    }
    assert(lat@.take(n as int) =~= lat@);
    best
}

/// The measured latency of each probe, `None` for a failed one.
pub open spec fn latencies(probes: Seq<Result<u128, String>>) -> Seq<Option<u128>> {
    probes.map_values(
        |p: Result<u128, String>|
            match p {
                Ok(l) => Some(l),
                Err(_) => None,
            },
    )
}

/// The message of a failed probe of `endpoint`.
pub open spec fn endpoint_error(endpoint: Seq<char>, port: u16, err: Seq<char>) -> Seq<char> {
    endpoint + ":"@ + decimal(port as nat) + " -> "@ + err
}

/// `"<endpoint>:<port> -> <err>"`.
pub fn endpoint_error_message(endpoint: &str, port: u16, err: &str) -> (r: String)
    ensures
        r@ == endpoint_error(endpoint@, port, err@),
{
    let mut m = concat2(endpoint, ":");
    push_decimal(&mut m, port as u64);
    m.append(" -> ");
    m.append(err);
    m
}

/// Picks the endpoint with the lowest latency from the outcome of probing
/// each endpoint of `host` (`probes[i]` belongs to `host.endpoints[i]`);
/// among equal latencies the first endpoint wins. When no probe succeeded
/// the error is that of the last endpoint, or that no endpoint is reachable
/// when there is none.
pub fn select_best_endpoint(host: &FinalHostConfig, probes: &Vec<Result<u128, String>>) -> (r:
    Result<ProbeResult, String>)
    requires
        probes@.len() == host.endpoints@.len(),
    ensures
        r is Ok <==> exists|j: int| 0 <= j < probes@.len() && (#[trigger] probes@[j]) is Ok,
        r matches Ok(p) ==> exists|i: int|
            first_lowest(latencies(probes@), i) && p.endpoint@ == (#[trigger] host.endpoints@[i])@
                && probes@[i] == Ok::<u128, String>(p.latency_ms),
        r matches Err(e) ==> e@ == if probes@.len() == 0 {
            "no reachable endpoint found"@
        } else {
            endpoint_error(
                host.endpoints@.last()@,
                host.port,
                probes@.last()->Err_0@,
            )
        },
{
    let n = probes.len();
    let mut lat: Vec<Option<u128>> = Vec::new();
    let mut i: usize = 0;
    while i < n
        invariant
            i <= n,
            n == probes@.len(),
            lat@ == latencies(probes@).take(i as int),
        decreases n - i,
    {
        let l = match &probes[i] {
            Ok(v) => Some(*v),
            Err(_) => None,
        };
        lat.push(l);
        assert(lat@ =~= latencies(probes@).take(i + 1));
        i = i + 1;
    }
    assert(lat@ =~= latencies(probes@));
    match lowest_latency(&lat) {
        Some(b) => {
            let latency_ms = match &probes[b] {
                Ok(v) => *v,
                Err(_) => 0,
            };
            let endpoint = host.endpoints[b].clone();
            assert(host.endpoints@[b as int]@ == endpoint@);
            Ok(ProbeResult { endpoint, latency_ms })
        },
        None => {
            assert forall|j: int| 0 <= j < probes@.len() implies !((#[trigger] probes@[j]) is Ok) by {
                assert(lat@[j] is None);
            }
            if n == 0 {
                Err(String::from_str("no reachable endpoint found"))
            } else {
                let last = n - 1;
                match &probes[last] {
                    Ok(_) => Err(String::from_str("no reachable endpoint found")),
                    Err(e) => Err(
                        endpoint_error_message(host.endpoints[last].as_str(), host.port, e.as_str()),
                    ),
                }
            }
        },
    }
}

/// The latency text of `ping` output: what stands between the first
/// `time=` and the next ` ms` (else the next `ms`), trimmed.
pub open spec fn ping_latency_text_spec(out: Seq<char>) -> Option<Seq<char>> {
    match find_spec(out, "time="@) {
        None => None,
        Some(s) => {
            let tail = out.skip(s + "time="@.len());
            let end = match find_spec(tail, " ms"@) {
                Some(e) => Some(e),
                None => find_spec(tail, "ms"@),
            };
            match end {
                None => None,
                Some(e) => Some(trim(tail.take(e))),
            }
        },
    }
}

/// The latency figure of `ping` output, as text (the number itself is read
/// by the caller).
pub fn ping_latency_text(stdout: &str) -> (r: Option<String>)
    ensures
        match r {
            Some(t) => ping_latency_text_spec(stdout@) == Some(t@),
            None => ping_latency_text_spec(stdout@) is None,
        },
{
    let marker = "time=";
    let start = match find_str(stdout, marker) {
        Some(s) => s,
        None => return None,
    };
    let len = stdout.unicode_len();
    let from = start + marker.unicode_len();
    let tail = stdout.substring_char(from, len);
    assert(tail@ =~= stdout@.skip(start + marker@.len()));
    let end = match find_str(tail, " ms") {
        Some(e) => e,
        None => match find_str(tail, "ms") {
            Some(e) => e,
            None => return None,
        },
    };
    let figure = tail.substring_char(0, end);
    assert(figure@ =~= tail@.take(end as int));
    Some(trim_str(figure))
}

} // verus!
