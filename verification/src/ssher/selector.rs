//! Endpoint selection for `ssher`: all endpoints are probed at once and the
//! first probe to succeed decides.

use vstd::prelude::*;

use crate::selector::{endpoint_error, endpoint_error_message};
use crate::sshe::selector::selection_error;
use crate::text::{join_strings, views};

verus! {

/// Where a selected endpoint came from.
#[derive(Debug, Clone, Copy, PartialEq, Eq, Structural)]
pub enum ProbeSource {
    Cache,
    Probe,
}

/// The endpoint chosen for a host, its latency, and where it came from.
#[derive(Debug, Clone)]
pub struct ProbeResult {
    pub endpoint: String,
    pub latency_ms: u128,
    pub source: ProbeSource,
}

/// A selected endpoint, with its name taken by its characters.
pub struct ProbeResultView {
    pub endpoint: Seq<char>,
    pub latency_ms: u128,
    pub source: ProbeSource,
}

impl View for ProbeResult {
    type V = ProbeResultView;

    open spec fn view(&self) -> ProbeResultView {
        ProbeResultView { endpoint: self.endpoint@, latency_ms: self.latency_ms, source: self.source }
    }
}

/// The view of an optional selection.
pub open spec fn opt_probe_view(r: Option<ProbeResult>) -> Option<ProbeResultView> {
    match r {
        Some(p) => Some(p@),
        None => None,
    }
}

/// An outcome of a probe, with its error taken by its characters.
pub open spec fn outcome_view(o: Result<u128, String>) -> Result<u128, Seq<char>> {
    match o {
        Ok(l) => Ok(l),
        Err(e) => Err(e@),
    }
}

/// One step of a race: given the errors so far and the probe of `endpoint`
/// that has just finished, the selection it makes (a success wins) and the
/// errors after it (a failure is recorded).
pub open spec fn race_step(
    errors: Seq<Seq<char>>,
    endpoint: Seq<char>,
    port: u16,
    outcome: Result<u128, Seq<char>>,
) -> (Option<ProbeResultView>, Seq<Seq<char>>) {
    match outcome {
        Ok(l) => (Some(ProbeResultView { endpoint, latency_ms: l, source: ProbeSource::Probe }), errors),
        Err(e) => (None, errors.push(endpoint_error(endpoint, port, e))),
    }
}

/// A race taken step by step over the probes in the order they finished,
/// starting from `errors`: the selection of the first step that makes one,
/// else, once every probe has finished, the error of the race.
pub open spec fn run_race(
    errors: Seq<Seq<char>>,
    finished: Seq<(Seq<char>, Result<u128, Seq<char>>)>,
    port: u16,
) -> Result<ProbeResultView, Seq<char>>
    decreases finished.len(),
{
    if finished.len() == 0 {
        Err(selection_error(errors))
    } else {
        let step = race_step(errors, finished[0].0, port, finished[0].1);
        match step.0 {
            Some(p) => Ok(p),
            None => run_race(step.1, finished.drop_first(), port),
        }
    }
}

/// `i` is the first probe, in finishing order, that succeeded.
pub open spec fn first_success(finished: Seq<(Seq<char>, Result<u128, Seq<char>>)>, i: int) -> bool {
    &&& 0 <= i < finished.len()
    &&& finished[i].1 is Ok
    &&& forall|j: int| 0 <= j < i ==> (#[trigger] finished[j]).1 is Err
}

/// The messages of failed probes, in finishing order.
pub open spec fn race_errors(finished: Seq<(Seq<char>, Result<u128, Seq<char>>)>, port: u16) -> Seq<
    Seq<char>,
> {
    finished.map_values(
        |f: (Seq<char>, Result<u128, Seq<char>>)| endpoint_error(f.0, port, f.1->Err_0),
    )
}

proof fn lemma_run_race_success(
    errors: Seq<Seq<char>>,
    finished: Seq<(Seq<char>, Result<u128, Seq<char>>)>,
    port: u16,
    i: int,
)
    requires
        first_success(finished, i),
    ensures
        run_race(errors, finished, port) == Ok::<ProbeResultView, Seq<char>>(
            ProbeResultView {
                endpoint: finished[i].0,
                latency_ms: finished[i].1->Ok_0,
                source: ProbeSource::Probe,
            },
        ),
    decreases finished.len(),
{
    if i > 0 {
        assert(finished[0].1 is Err);
        let rest = finished.drop_first();
        assert forall|j: int| 0 <= j < i - 1 implies (#[trigger] rest[j]).1 is Err by {
            assert(rest[j] == finished[j + 1]);
        }
        assert(rest[i - 1] == finished[i]);
        let e = finished[0].1->Err_0;
        lemma_run_race_success(errors.push(endpoint_error(finished[0].0, port, e)), rest, port, i - 1);
    }
}

proof fn lemma_run_race_failure(
    errors: Seq<Seq<char>>,
    finished: Seq<(Seq<char>, Result<u128, Seq<char>>)>,
    port: u16,
)
    requires
        forall|j: int| 0 <= j < finished.len() ==> (#[trigger] finished[j]).1 is Err,
    ensures
        run_race(errors, finished, port) == Err::<ProbeResultView, Seq<char>>(
            selection_error(errors + race_errors(finished, port)),
        ),
    decreases finished.len(),
{
    if finished.len() == 0 {
        assert(errors + race_errors(finished, port) =~= errors);
    } else {
        let rest = finished.drop_first();
        assert forall|j: int| 0 <= j < rest.len() implies (#[trigger] rest[j]).1 is Err by {
            assert(rest[j] == finished[j + 1]);
        }
        assert(finished[0].1 is Err);
        let e = finished[0].1->Err_0;
        let next = errors.push(endpoint_error(finished[0].0, port, e));
        lemma_run_race_failure(next, rest, port);
        assert(next + race_errors(rest, port) =~= errors + race_errors(finished, port));
    }
}

/// The outcome of a whole race: over the probes in the order they finished,
/// the selection is the first probe to succeed, with its endpoint and
/// latency; when every probe failed, the error is all their messages in
/// finishing order, joined with `"; "` (or that no endpoint is reachable
/// when there was none).
pub proof fn lemma_race_outcome(finished: Seq<(Seq<char>, Result<u128, Seq<char>>)>, port: u16)
    ensures
        forall|i: int|
            first_success(finished, i) ==> run_race(Seq::empty(), finished, port) == Ok::<
                ProbeResultView,
                Seq<char>,
            >(
                ProbeResultView {
                    endpoint: finished[i].0,
                    latency_ms: finished[i].1->Ok_0,
                    source: ProbeSource::Probe,
                },
            ),
        (forall|j: int| 0 <= j < finished.len() ==> (#[trigger] finished[j]).1 is Err) ==> run_race(
            Seq::empty(),
            finished,
            port,
        ) == Err::<ProbeResultView, Seq<char>>(selection_error(race_errors(finished, port))),
{
    assert forall|i: int| first_success(finished, i) implies run_race(Seq::empty(), finished, port)
        == Ok::<ProbeResultView, Seq<char>>(
        ProbeResultView {
            endpoint: finished[i].0,
            latency_ms: finished[i].1->Ok_0,
            source: ProbeSource::Probe,
        },
    ) by {
        lemma_run_race_success(Seq::empty(), finished, port, i);
    }
    if forall|j: int| 0 <= j < finished.len() ==> (#[trigger] finished[j]).1 is Err {
        lemma_run_race_failure(Seq::empty(), finished, port);
        assert(Seq::<Seq<char>>::empty() + race_errors(finished, port) =~= race_errors(finished, port));
    }
}

/// The state of a probing race: the errors of the probes that have failed
/// so far, in the order they finished.
pub struct ProbeRace {
    errors: Vec<String>,
}

impl View for ProbeRace {
    type V = Seq<Seq<char>>;

    closed spec fn view(&self) -> Seq<Seq<char>> {
        views(self.errors@)
    }
}

impl ProbeRace {
    /// A race in which no probe has finished yet.
    pub fn new() -> (r: Self)
        ensures
            r@ == Seq::<Seq<char>>::empty(),
    {
        let r = ProbeRace { errors: Vec::new() };
        assert(r@ =~= Seq::<Seq<char>>::empty());
        r
    }

    /// The probe of `endpoint` has finished with `outcome`. A latency wins
    /// the race and is the selection; an error is recorded and the race goes
    /// on.
    pub fn on_probe_finished(&mut self, endpoint: &str, port: u16, outcome: &Result<u128, String>) -> (r:
        Option<ProbeResult>)
        ensures
            (opt_probe_view(r), final(self)@) == race_step(old(self)@, endpoint@, port, outcome_view(*outcome)),
            match outcome {
                Ok(l) => r matches Some(p) && p@ == (ProbeResultView {
                    endpoint: endpoint@,
                    latency_ms: *l,
                    source: ProbeSource::Probe,
                }) && final(self)@ == old(self)@,
                Err(e) => r is None && final(self)@ == old(self)@.push(
                    endpoint_error(endpoint@, port, e@),
                ),
            },
    {
        match outcome {
            Ok(l) => Some(
                ProbeResult {
                    endpoint: String::from_str(endpoint),
                    latency_ms: *l,
                    source: ProbeSource::Probe,
                },
            ),
            Err(e) => {
                let m = endpoint_error_message(endpoint, port, e.as_str());
                self.errors.push(m);
                assert(views(self.errors@) =~= views(old(self).errors@).push(
                    endpoint_error(endpoint@, port, e@),
                ));
                None
            },
        }
    }

    /// The error once every probe has failed: their errors joined with
    /// `"; "`, or that no endpoint is reachable when there was none.
    pub fn into_error(&self) -> (e: String)
        ensures
            e@ == selection_error(self@),
    {
        if self.errors.len() == 0 {
            String::from_str("no reachable endpoint found")
        } else {
            join_strings(&self.errors, "; ")
        }
    }
}

} // verus!
