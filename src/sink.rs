use vstd::prelude::*;
use crate::store::MatchRecord;

verus! {

/// One submission to a sink that holds `kept`: the record is taken only
/// while nothing is held; the result is the new holding and whether the
/// record was taken.
pub open spec fn submit_step(kept: Option<MatchRecord>, record: MatchRecord) -> (
    Option<MatchRecord>,
    bool,
) {
    if kept is None {
        (Some(record), true)
    } else {
        (kept, false)
    }
}

/// What a sink holds after the submissions `subs`, made in order from `kept`.
pub open spec fn kept_after(kept: Option<MatchRecord>, subs: Seq<MatchRecord>) -> Option<
    MatchRecord,
>
    decreases subs.len(),
{
    if subs.len() == 0 {
        kept
    } else {
        submit_step(kept_after(kept, subs.drop_last()), subs.last()).0
    }
}

/// How many of the submissions `subs`, made in order from `kept`, were
/// taken (each taken one is persisted).
pub open spec fn taken_count(kept: Option<MatchRecord>, subs: Seq<MatchRecord>) -> nat
    decreases subs.len(),
{
    if subs.len() == 0 {
        0
    } else {
        taken_count(kept, subs.drop_last()) + if submit_step(
            kept_after(kept, subs.drop_last()),
            subs.last(),
        ).1 {
            1nat
        } else {
            0nat
        }
    }
}

/// Receives the winning records of one search and keeps the first: later
/// submissions, from workers that matched in the same moment, are refused.
pub struct ResultSink {
    kept: Option<MatchRecord>,
}

impl ResultSink {
    /// The record this sink holds, if any.
    pub closed spec fn held(&self) -> Option<MatchRecord> {
        self.kept
    }

    /// A sink that holds nothing yet.
    pub fn new() -> (r: ResultSink)
        ensures
            r.held() is None,
    {
        ResultSink { kept: None }
    }

    /// Offers `record`; returns whether it was taken, which is so exactly
    /// when nothing was held before.
    pub fn submit(&mut self, record: MatchRecord) -> (taken: bool)
        ensures
            (final(self).held(), taken) == submit_step(old(self).held(), record),
    {
        if self.kept.is_none() {
            self.kept = Some(record);
            true
        } else {
            false
        }
    }

    /// Gives up the sink for the record it holds, if any.
    pub fn into_winner(self) -> (r: Option<MatchRecord>)
        ensures
            r == self.held(),
    {
        self.kept
    }

    /// The record this sink holds, if any.
    pub fn winner(&self) -> (r: Option<&MatchRecord>)
        ensures
            r matches Some(w) ==> self.held() == Some(*w),
            r is None <==> self.held() is None,
    {
        match &self.kept {
            Some(w) => Some(w),
            None => None,
        }
    }
}

/// At most one record per run: a fresh sink takes exactly one of any
/// non-empty sequence of submissions, however many workers raced, and it
/// is the first one.
pub proof fn lemma_one_record_per_run(subs: Seq<MatchRecord>)
    ensures
        taken_count(None, subs) == if subs.len() > 0 {
            1nat
        } else {
            0nat
        },
        subs.len() > 0 ==> kept_after(None, subs) == Some(subs[0]),
    decreases subs.len(),
{
    if subs.len() > 0 {
        lemma_one_record_per_run(subs.drop_last());
        if subs.len() > 1 {
            assert(subs.drop_last()[0] == subs[0]);
        }
    }
}

} // verus!
