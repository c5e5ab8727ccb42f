//! Endpoint selection for the `sshe` client: every endpoint is probed and
//! the lowest latency wins.

use vstd::prelude::*;

use crate::selector::{endpoint_error, endpoint_error_message, first_lowest, lowest_latency};
use crate::sshe::config::FinalHostConfig;
use crate::text::{concat2, join, join_strings, views};

verus! {

/// Where a selected endpoint came from.
#[derive(Debug, Clone, Copy, PartialEq, Eq, Structural)]
pub enum ProbeSource {
    Cache,
    Probe,
}

/// The endpoint chosen for a host, its latency, and where it came from.
#[derive(Debug, Clone)]
pub struct ProbeResult {
    pub endpoint: String,
    pub latency_ms: u128,
    pub source: ProbeSource,
}

/// A selected endpoint, with its name taken by its characters.
pub struct ProbeResultView {
    pub endpoint: Seq<char>,
    pub latency_ms: u128,
    pub source: ProbeSource,
}

impl View for ProbeResult {
    type V = ProbeResultView;

    open spec fn view(&self) -> ProbeResultView {
        ProbeResultView { endpoint: self.endpoint@, latency_ms: self.latency_ms, source: self.source }
    }
}

/// The view of an optional selection.
pub open spec fn opt_probe_view(r: Option<ProbeResult>) -> Option<ProbeResultView> {
    match r {
        Some(p) => Some(p@),
        None => None,
    }
}

/// What probing one endpoint gave: a latency, the probe's own error, or the
/// error of the task that ran it.
#[derive(Debug)]
pub enum ProbeOutcome {
    Measured(u128),
    Failed(String),
    TaskFailed(String),
}

/// The latency of each outcome, `None` where the probe failed.
pub open spec fn outcome_latencies(o: Seq<ProbeOutcome>) -> Seq<Option<u128>> {
    o.map_values(
        |p: ProbeOutcome|
            match p {
                ProbeOutcome::Measured(l) => Some(l),
                _ => None,
            },
    )
}

/// The error message an outcome contributes, if it is a failure.
pub open spec fn outcome_error(endpoint: Seq<char>, port: u16, o: ProbeOutcome) -> Option<
    Seq<char>,
> {
    match o {
        ProbeOutcome::Measured(_) => None,
        ProbeOutcome::Failed(e) => Some(endpoint_error(endpoint, port, e@)),
        ProbeOutcome::TaskFailed(e) => Some("probe task failed: "@ + e@),
    }
}

/// The error messages of the failed outcomes, in endpoint order.
pub open spec fn probe_errors(endpoints: Seq<Seq<char>>, port: u16, o: Seq<ProbeOutcome>) -> Seq<
    Seq<char>,
>
    decreases o.len(),
{
    if o.len() == 0 {
        Seq::empty()
    } else {
        let rest = probe_errors(endpoints.drop_last(), port, o.drop_last());
        match outcome_error(endpoints.last(), port, o.last()) {
            Some(e) => rest.push(e),
            None => rest,
        }
    }
}

/// The error when no endpoint could be measured: the failures joined with
/// `"; "`, or that none is reachable when there was no failure either.
pub open spec fn selection_error(errors: Seq<Seq<char>>) -> Seq<char> {
    if errors.len() == 0 {
        "no reachable endpoint found"@
    } else {
        join(errors, "; "@)
    }
}

/// Picks the endpoint with the lowest latency from the outcomes of probing
/// each endpoint of `host` (`outcomes[i]` belongs to `host.endpoints[i]`);
/// among equal latencies the first endpoint wins.
pub fn select_best_endpoint(host: &FinalHostConfig, outcomes: &Vec<ProbeOutcome>) -> (r: Result<
    ProbeResult,
    String,
>)
    requires
        outcomes@.len() == host.endpoints@.len(),
    ensures
        r is Ok <==> exists|j: int|
            0 <= j < outcomes@.len() && (#[trigger] outcomes@[j]) is Measured,
        r matches Ok(p) ==> p.source == ProbeSource::Probe && exists|i: int|
            first_lowest(outcome_latencies(outcomes@), i) && p.endpoint@ == (
            #[trigger] host.endpoints@[i])@ && outcomes@[i] == ProbeOutcome::Measured(p.latency_ms),
        r matches Err(e) ==> e@ == selection_error(
            probe_errors(views(host.endpoints@), host.port, outcomes@),
        ),
{
    let n = outcomes.len();
    let mut lat: Vec<Option<u128>> = Vec::new();
    let mut errors: Vec<String> = Vec::new();
    let mut i: usize = 0;
    let ghost eps = views(host.endpoints@);
    while i < n
        invariant
            i <= n,
            n == outcomes@.len(),
            n == host.endpoints@.len(),
            eps == views(host.endpoints@),
            lat@ == outcome_latencies(outcomes@).take(i as int),
            views(errors@) == probe_errors(eps.take(i as int), host.port, outcomes@.take(i as int)),
        decreases n - i,
    {
        proof {
            assert(eps.take(i + 1).drop_last() =~= eps.take(i as int));
            assert(outcomes@.take(i + 1).drop_last() =~= outcomes@.take(i as int));
            assert(eps.take(i + 1).last() == host.endpoints@[i as int]@);
        }
        match &outcomes[i] {
            ProbeOutcome::Measured(l) => {
                lat.push(Some(*l));
            },
            ProbeOutcome::Failed(e) => {
                lat.push(None);
                errors.push(
                    endpoint_error_message(host.endpoints[i].as_str(), host.port, e.as_str()),
                );
            },
            ProbeOutcome::TaskFailed(e) => {
                lat.push(None);
                errors.push(concat2("probe task failed: ", e.as_str()));
            },
        }
        assert(lat@ =~= outcome_latencies(outcomes@).take(i + 1));
        assert(views(errors@) =~= probe_errors(eps.take(i + 1), host.port, outcomes@.take(i + 1)));
        i = i + 1;
    }
    assert(lat@ =~= outcome_latencies(outcomes@));
    assert(eps.take(n as int) =~= eps);
    assert(outcomes@.take(n as int) =~= outcomes@);
    match lowest_latency(&lat) {
        Some(b) => {
            let latency_ms = match &outcomes[b] {
                ProbeOutcome::Measured(v) => *v,
                _ => 0,
            };
            let endpoint = host.endpoints[b].clone();
            assert(host.endpoints@[b as int]@ == endpoint@);
            Ok(ProbeResult { endpoint, latency_ms, source: ProbeSource::Probe })
        },
        None => {
            assert forall|j: int| 0 <= j < outcomes@.len() implies !((#[trigger] outcomes@[j]) is Measured) by {
                assert(lat@[j] is None);
            }
            if errors.len() == 0 {
                Err(String::from_str("no reachable endpoint found"))
            } else {
                Err(join_strings(&errors, "; "))
            }
        },
    }
}

} // verus!
