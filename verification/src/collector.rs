//! Completion collection and the fan-out accounting of a run.
//!
//! The dispatcher spawns one worker per task. Each worker, once its
//! subprocess has run to completion, sends exactly one completion notice
//! into a bounded channel; the run controller drains that channel and counts
//! the notices for progress reporting, then joins every worker, tolerating
//! individual join failures.
//!
//! The ghost model below captures the channel accounting: a notice can be
//! collected only after it was sent, and no more workers finish than were
//! dispatched. The law proved of it is the fan-out completion count: when
//! every dispatched worker finishes and the channel is fully drained, the
//! progress counter reaches the task count exactly.

use vstd::prelude::*;

verus! {

/// The channel accounting of one run: how many workers were dispatched in
/// all, how many completion notices were sent so far, and how many of those
/// the controller has collected.
pub struct FanOutState {
    pub total: nat,
    pub sent: nat,
    pub received: nat,
}

/// The accounting at run start: workers dispatched, nothing sent or
/// collected yet.
pub open spec fn fan_out_start(total: nat) -> FanOutState {
    FanOutState { total, sent: 0, received: 0 }
}

/// One observable event of a run: a worker finishing (and sending its
/// notice), or the controller collecting one notice from the channel.
pub enum RunEvent {
    WorkerFinished,
    NoticeCollected,
}

/// When an event can happen: only a dispatched worker can finish, and only a
/// sent notice can be collected.
pub open spec fn event_allowed(s: FanOutState, e: RunEvent) -> bool {
    match e {
        RunEvent::WorkerFinished => s.sent < s.total,
        RunEvent::NoticeCollected => s.received < s.sent,
    }
}

/// The accounting after one event.
pub open spec fn apply_event(s: FanOutState, e: RunEvent) -> FanOutState {
    match e {
        RunEvent::WorkerFinished => FanOutState { sent: s.sent + 1, ..s },
        RunEvent::NoticeCollected => FanOutState { received: s.received + 1, ..s },
    }
}

/// The accounting after a whole sequence of events.
pub open spec fn apply_events(s: FanOutState, es: Seq<RunEvent>) -> FanOutState
    decreases es.len(),
{
    if es.len() == 0 {
        s
    } else {
        apply_events(apply_event(s, es.first()), es.drop_first())
    }
}

/// Whether every event of the sequence is allowed in the state it meets.
pub open spec fn valid_events(s: FanOutState, es: Seq<RunEvent>) -> bool
    decreases es.len(),
{
    es.len() == 0 || (event_allowed(s, es.first()) && valid_events(
        apply_event(s, es.first()),
        es.drop_first(),
    ))
}

/// How many times an event occurs in a sequence.
pub open spec fn count_events(es: Seq<RunEvent>, e: RunEvent) -> nat
    decreases es.len(),
{
    if es.len() == 0 {
        0
    } else {
        (if es.first() == e {
            1nat
        } else {
            0nat
        }) + count_events(es.drop_first(), e)
    }
}

/// The events change the accounting by exactly their counts: the task count
/// never moves, the sent count grows by one per finished worker, and the
/// collected count grows by one per collected notice.
pub proof fn lemma_event_counts(s: FanOutState, es: Seq<RunEvent>)
    ensures
        apply_events(s, es).total == s.total,
        apply_events(s, es).sent == s.sent + count_events(es, RunEvent::WorkerFinished),
        apply_events(s, es).received == s.received + count_events(es, RunEvent::NoticeCollected),
    decreases es.len(),
{
    if es.len() > 0 {
        lemma_event_counts(apply_event(s, es.first()), es.drop_first());
    }
}

/// The safety invariant of the channel accounting: collected notices never
/// outnumber sent ones, and sent notices never outnumber dispatched workers.
pub open spec fn fan_out_inv(s: FanOutState) -> bool {
    s.received <= s.sent && s.sent <= s.total
}

/// A valid event sequence keeps the channel accounting invariant.
pub proof fn lemma_valid_run_keeps_inv(s: FanOutState, es: Seq<RunEvent>)
    requires
        fan_out_inv(s),
        valid_events(s, es),
    ensures
        fan_out_inv(apply_events(s, es)),
    decreases es.len(),
{
    if es.len() > 0 {
        lemma_valid_run_keeps_inv(apply_event(s, es.first()), es.drop_first());
    }
}

/// Fan-out completion count: in a run of `total` dispatched workers in which
/// every worker finishes (each sending exactly one completion notice) and the
/// controller drains the channel completely, the controller collects exactly
/// `total` notices, so the progress counter reaches `total`.
pub proof fn lemma_fanout_completion(total: nat, es: Seq<RunEvent>)
    requires
        valid_events(fan_out_start(total), es),
        count_events(es, RunEvent::WorkerFinished) == total,
        apply_events(fan_out_start(total), es).received == apply_events(
            fan_out_start(total),
            es,
        ).sent,
    ensures
        count_events(es, RunEvent::NoticeCollected) == total,
        apply_events(fan_out_start(total), es).received == total,
{
    lemma_event_counts(fan_out_start(total), es);
}

/// The progress counter of a run: one count per completion notice collected,
/// reported against the number of dispatched tasks.
pub struct Collector {
    pub total: usize,
    pub received: usize,
}

impl Collector {
    /// The counter never runs past the number of dispatched tasks.
    pub open spec fn wf(&self) -> bool {
        self.received <= self.total
    }

    /// A fresh collector for a run of `total` dispatched tasks.
    pub fn new(total: usize) -> (c: Collector)
        ensures
            c.total == total,
            c.received == 0,
            c.wf(),
    {
        Collector { total, received: 0 }
    }

    /// Records one collected completion notice; returns its progress
    /// ordinal, counted from one.
    pub fn on_result(&mut self) -> (n: usize)
        requires
            old(self).received < old(self).total,
        ensures
            final(self).total == old(self).total,
            final(self).received == old(self).received + 1,
            n == final(self).received,
            final(self).wf(),
    {
        self.received = self.received + 1;
        self.received
    }

    /// Whether every dispatched task has reported completion.
    pub fn all_received(&self) -> (r: bool)
        ensures
            r == (self.received == self.total),
    {
        self.received == self.total
    }
}

/// What the join barrier found: how many workers joined cleanly and how many
/// were lost. A lost worker never aborts the run; the run always proceeds to
/// relocation after the joins.
pub struct JoinSummary {
    pub joined: usize,
    pub lost: usize,
}

/// Tallies the join results of all spawned workers, in spawn order. Every
/// worker is accounted for: a clean join counts as joined, a failed one as a
/// lost download, and nothing is dropped.
pub fn summarize_joins(join_ok: &Vec<bool>) -> (s: JoinSummary)
    ensures
        s.joined == join_ok@.filter(|b: bool| b).len(),
        s.lost == join_ok@.filter(|b: bool| !b).len(),
        s.joined + s.lost == join_ok@.len(),
{
    let ghost ok_pred = |b: bool| b;
    let ghost lost_pred = |b: bool| !b;
    let mut joined: usize = 0;
    let mut lost: usize = 0;
    let mut i: usize = 0;
    proof {
        assert(join_ok@.take(0int).filter(ok_pred) =~= Seq::<bool>::empty()) by {
            reveal(Seq::filter);
        }
        assert(join_ok@.take(0int).filter(lost_pred) =~= Seq::<bool>::empty()) by {
            reveal(Seq::filter);
        }
    }
    while i < join_ok.len()
        invariant
            i <= join_ok.len(),
            joined == join_ok@.take(i as int).filter(ok_pred).len(),
            lost == join_ok@.take(i as int).filter(lost_pred).len(),
            joined + lost == i,
            ok_pred == (|b: bool| b),
            lost_pred == (|b: bool| !b),
        decreases join_ok.len() - i,
    {
        if join_ok[i] {
            joined = joined + 1;
        } else {
            lost = lost + 1;
        }
        proof {
            assert(join_ok@.take(i as int + 1) == join_ok@.take(i as int).push(
                join_ok@[i as int],
            ));
            join_ok@.take(i as int).lemma_filter_push(join_ok@[i as int], ok_pred);
            join_ok@.take(i as int).lemma_filter_push(join_ok@[i as int], lost_pred);
        }
        i = i + 1;
    }
    proof {
        assert(join_ok@.take(join_ok@.len() as int) == join_ok@);
    }
    JoinSummary { joined, lost }
}

} // verus!
