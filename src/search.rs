use vstd::prelude::*;
use solana_sdk::signature::Signer;
use crate::config::SearchConfig;
use crate::matching::{check_vanity_string, vanity_match};
use crate::progress::ProgressCounter;
use crate::sink::ResultSink;
use crate::store::{seed_note, MatchRecord};

verus! {

/// Relies on `solana_sdk::signature::Keypair::new` and on `Pubkey`'s
/// `Display`: a fresh random key pair, its public key in base58. Nothing is
/// known of the value.
#[verifier::external_body]
fn generate_identifier() -> (r: String) {
    solana_sdk::signature::Keypair::new().pubkey().to_string()
}

/// What one turn of a search worker decided.
pub enum Step {
    /// The stop signal was seen: the worker ends.
    Stop,
    /// The candidate matched: its record is to be claimed and handed on.
    Found(MatchRecord),
    /// The candidate did not match: the progress count goes up by one.
    Miss,
}

/// Tests one candidate: its record when it matches the search's pattern.
pub fn examine(config: &SearchConfig, candidate: String) -> (r: Option<MatchRecord>)
    ensures
        r is Some <==> vanity_match(candidate@, config.pattern@, config.case_sensitive),
        r matches Some(rec) ==> rec.public_identifier@ == candidate@ && rec.note@ == seed_note(),
{
    if check_vanity_string(candidate.as_str(), config.pattern.as_str(), config.case_sensitive) {
        Some(MatchRecord::found(candidate))
    } else {
        None
    }
}

/// One turn of a search worker that has observed the stop signal as
/// `stop_seen`: it ends if the signal is raised, and otherwise generates one
/// candidate and tests it.
pub fn worker_step(config: &SearchConfig, stop_seen: bool) -> (r: Step)
    ensures
        r is Stop <==> stop_seen,
        r matches Step::Found(rec) ==> vanity_match(
            rec.public_identifier@,
            config.pattern@,
            config.case_sensitive,
        ) && rec.note@ == seed_note(),
{
    if stop_seen {
        return Step::Stop;
    }
    match examine(config, generate_identifier()) {
        Some(rec) => Step::Found(rec),
        None => Step::Miss,
    }
}

/// How a search ended.
pub struct SearchOutcome {
    /// The record handed to the sink, if a candidate matched.
    pub winner: Option<MatchRecord>,
    /// Candidates examined without a match.
    pub examined: u64,
    /// Whether the stop signal was raised.
    pub stopped: bool,
}

/// No candidate before `k` matches the pattern.
pub open spec fn none_match_before(
    candidates: Seq<String>,
    pattern: Seq<char>,
    case_sensitive: bool,
    k: int,
) -> bool {
    forall|j: int| 0 <= j < k ==> !vanity_match(#[trigger] candidates[j]@, pattern, case_sensitive)
}

/// Candidate `k` is the first that matches the pattern.
pub open spec fn first_match_at(
    candidates: Seq<String>,
    pattern: Seq<char>,
    case_sensitive: bool,
    k: int,
) -> bool {
    &&& 0 <= k < candidates.len()
    &&& vanity_match(candidates[k]@, pattern, case_sensitive)
    &&& none_match_before(candidates, pattern, case_sensitive, k)
}

/// Runs the search over a generator that yields `candidates` in order (the
/// candidates of all workers, as they were drawn): the stop signal is
/// raised by the first match, whose record is the only one handed to the
/// sink; every candidate before it counts as examined.
pub fn run_scripted(config: &SearchConfig, candidates: &Vec<String>) -> (r: SearchOutcome)
    ensures
        r.stopped == r.winner is Some,
        none_match_before(candidates@, config.pattern@, config.case_sensitive, candidates@.len() as int)
            ==> r.winner is None && r.examined == candidates@.len(),
        forall|k: int|
            first_match_at(candidates@, config.pattern@, config.case_sensitive, k) ==> {
                &&& r.winner matches Some(w)
                &&& w.public_identifier@ == candidates@[k]@
                &&& w.note@ == seed_note()
                &&& r.examined == k
            },
{
    let n = candidates.len();
    assert(n <= u64::MAX);
    let mut counter = ProgressCounter::new();
    let mut sink = ResultSink::new();
    let mut stop = false;
    let mut i: usize = 0;
    while i < n && !stop
        invariant
            n == candidates@.len(),
            i <= n,
            counter.value() == i,
            none_match_before(candidates@, config.pattern@, config.case_sensitive, i as int),
            !stop ==> sink.held() is None,
            stop ==> i < n && first_match_at(
                candidates@,
                config.pattern@,
                config.case_sensitive,
                i as int,
            ) && (sink.held() matches Some(w) && w.public_identifier@ == candidates@[i as int]@
                && w.note@ == seed_note()),
        decreases n - i, if stop {
            0int
        } else {
            1int
        },
    {
        match examine(config, candidates[i].clone()) {
            Some(rec) => {
                sink.submit(rec);
                stop = true;
            },
            None => {
                counter.increment();
                i = i + 1;
            },
        }
    }
    proof {
        assert forall|k: int|
            first_match_at(
                candidates@,
                config.pattern@,
                config.case_sensitive,
                k,
            ) implies k == i by {
            if k < i {
                assert(!vanity_match(candidates@[k]@, config.pattern@, config.case_sensitive));
            } else if k > i {
                assert(!vanity_match(candidates@[i as int]@, config.pattern@, config.case_sensitive));
            }
        }
    }
    SearchOutcome { winner: sink.into_winner(), examined: counter.get(), stopped: stop }
}

} // verus!
