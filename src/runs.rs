use vstd::prelude::*;

use crate::command::Command;
use crate::time::{clamp, max_nanos, Moment, Span};
use crate::timeout::{started, step, Phase, TimeoutModel};

verus! {

/// One activation as the driver sees it: whether the operation was ready,
/// the command taken from the queue, and the time.
pub struct Activation {
    pub ready: bool,
    pub command: Option<Command>,
    pub now: Moment,
}

/// The state after the activations `events`, in order.
pub open spec fn run(m: TimeoutModel, events: Seq<Activation>) -> TimeoutModel
    decreases events.len(),
{
    if events.len() == 0 {
        m
    } else {
        let e = events[0];
        run(step(m, e.ready, e.command, e.now.nanos as int), events.drop_first())
    }
}

/// The span by which an activation's command moves the deadline later, if it
/// is an increment.
pub open spec fn increment_of(e: Activation) -> int {
    match e.command {
        Some(Command::Increment(d)) => d.nanos as int,
        _ => 0,
    }
}

/// The sum of the increments that the activations carry.
pub open spec fn added(events: Seq<Activation>) -> int
    decreases events.len(),
{
    if events.len() == 0 {
        0
    } else {
        increment_of(events[0]) + added(events.drop_first())
    }
}

/// A resolved timeout is inert: no activation changes it again.
pub proof fn lemma_resolved_is_final(m: TimeoutModel, events: Seq<Activation>)
    requires
        m.phase != Phase::Pending,
    ensures
        run(m, events) == m,
    decreases events.len(),
{
    if events.len() > 0 {
        lemma_resolved_is_final(m, events.drop_first());
    }
}

proof fn lemma_completes_while_in_time(m: TimeoutModel, events: Seq<Activation>)
    requires
        m.phase == Phase::Pending,
        forall|i: int| 0 <= i < events.len() ==> (#[trigger] events[i]).command is None,
        forall|i: int| 0 <= i < events.len() ==> (#[trigger] events[i]).now.nanos < m.deadline,
        exists|i: int| 0 <= i < events.len() && (#[trigger] events[i]).ready,
    ensures
        run(m, events).phase == Phase::Completed,
    decreases events.len(),
{
    let e = events[0];
    let next = step(m, e.ready, e.command, e.now.nanos as int);
    if e.ready {
        lemma_resolved_is_final(next, events.drop_first());
    } else {
        let rest = events.drop_first();
        let i = choose|i: int| 0 <= i < events.len() && (#[trigger] events[i]).ready;
        assert(rest[i - 1] == events[i]);
        assert forall|j: int| 0 <= j < rest.len() implies (#[trigger] rest[j]).command is None
            && rest[j].now.nanos < next.deadline by {
            assert(rest[j] == events[j + 1]);
        }
        lemma_completes_while_in_time(next, rest);
    }
}

/// An operation that finishes strictly before the initial duration has
/// elapsed, with no adjustment sent, resolves the timeout with its output
/// (where that initial deadline can be held by a [`Moment`]).
pub proof fn lemma_completes_before_deadline(start: Moment, duration: Span, events: Seq<Activation>)
    requires
        start.nanos + duration.nanos <= max_nanos(),
        forall|i: int| 0 <= i < events.len() ==> (#[trigger] events[i]).command is None,
        forall|i: int|
            0 <= i < events.len() ==> (#[trigger] events[i]).now.nanos < start.nanos + duration.nanos,
        exists|i: int| 0 <= i < events.len() && (#[trigger] events[i]).ready,
    ensures
        run(started(start, duration), events).phase == Phase::Completed,
{
    let m = started(start, duration);
    lemma_completes_while_in_time(m, events);
}

proof fn lemma_expires_when_due(m: TimeoutModel, events: Seq<Activation>)
    requires
        m.phase == Phase::Pending,
        forall|i: int| 0 <= i < events.len() ==> (#[trigger] events[i]).command is None,
        forall|i: int| 0 <= i < events.len() ==> !(#[trigger] events[i]).ready,
    ensures
        run(m, events).phase == Phase::TimedOut <==> exists|i: int|
            0 <= i < events.len() && (#[trigger] events[i]).now.nanos >= m.deadline,
        run(m, events).phase != Phase::Completed,
        run(m, events).deadline == m.deadline,
    decreases events.len(),
{
    if events.len() > 0 {
        let e = events[0];
        let next = step(m, e.ready, e.command, e.now.nanos as int);
        let rest = events.drop_first();
        if e.now.nanos >= m.deadline {
            lemma_resolved_is_final(next, rest);
        } else {
            assert forall|j: int| 0 <= j < rest.len() implies (#[trigger] rest[j]).command is None
                && !rest[j].ready by {
                assert(rest[j] == events[j + 1]);
            }
            lemma_expires_when_due(next, rest);
            if exists|i: int| 0 <= i < events.len() && (#[trigger] events[i]).now.nanos >= m.deadline {
                let i = choose|i: int| 0 <= i < events.len() && (#[trigger] events[i]).now.nanos >= m.deadline;
                assert(rest[i - 1] == events[i]);
            }
            if exists|i: int| 0 <= i < rest.len() && (#[trigger] rest[i]).now.nanos >= m.deadline {
                let i = choose|i: int| 0 <= i < rest.len() && (#[trigger] rest[i]).now.nanos >= m.deadline;
                assert(rest[i] == events[i + 1]);
            }
        }
    }
}

/// With no adjustment and an operation that never finishes, the timeout
/// expires exactly on the first activation at or after the initial deadline,
/// `duration` after `start`; it never completes.
pub proof fn lemma_expires_at_deadline(start: Moment, duration: Span, events: Seq<Activation>)
    requires
        forall|i: int| 0 <= i < events.len() ==> (#[trigger] events[i]).command is None,
        forall|i: int| 0 <= i < events.len() ==> !(#[trigger] events[i]).ready,
    ensures
        run(started(start, duration), events).phase == Phase::TimedOut <==> exists|i: int|
            0 <= i < events.len() && (#[trigger] events[i]).now.nanos >= clamp(start.nanos + duration.nanos),
        run(started(start, duration), events).phase != Phase::Completed,
{
    lemma_expires_when_due(started(start, duration), events);
}

/// An increment by `d` taken while pending, and no adjustment after it,
/// moves the deadline `d` later: an operation that finishes before that
/// later deadline resolves the timeout with its output, even after the
/// deadline it replaced.
pub proof fn lemma_increment_extends(m: TimeoutModel, d: Span, events: Seq<Activation>)
    requires
        m.wf(),
        m.phase == Phase::Pending,
        m.deadline + d.nanos <= max_nanos(),
        events.len() > 0,
        events[0].command == Some(Command::Increment(d)),
        forall|i: int| 1 <= i < events.len() ==> (#[trigger] events[i]).command is None,
        forall|i: int| 0 <= i < events.len() ==> (#[trigger] events[i]).now.nanos < m.deadline + d.nanos,
        exists|i: int| 0 <= i < events.len() && (#[trigger] events[i]).ready,
    ensures
        run(m, events).phase == Phase::Completed,
{
    let e = events[0];
    let next = step(m, e.ready, e.command, e.now.nanos as int);
    let rest = events.drop_first();
    if e.ready {
        lemma_resolved_is_final(next, rest);
    } else {
        assert(next.deadline == m.deadline + d.nanos);
        let i = choose|i: int| 0 <= i < events.len() && (#[trigger] events[i]).ready;
        assert(rest[i - 1] == events[i]);
        assert forall|j: int| 0 <= j < rest.len() implies (#[trigger] rest[j]).command is None
            && rest[j].now.nanos < next.deadline by {
            assert(rest[j] == events[j + 1]);
        }
        lemma_completes_while_in_time(next, rest);
    }
}

/// A decrement by `d` taken while pending, with the operation not ready,
/// moves the deadline `d` earlier; where that lands at or before the
/// current time the timeout expires on that very activation, and otherwise
/// it stays pending.
pub proof fn lemma_decrement_expires(m: TimeoutModel, d: Span, now: Moment)
    requires
        m.wf(),
        m.phase == Phase::Pending,
    ensures
        step(m, false, Some(Command::Decrement(d)), now.nanos as int).deadline == clamp(m.deadline - d.nanos),
        step(m, false, Some(Command::Decrement(d)), now.nanos as int).phase == Phase::TimedOut
            <==> m.deadline - d.nanos <= now.nanos,
        step(m, false, Some(Command::Decrement(d)), now.nanos as int).phase != Phase::Completed,
{
}

proof fn lemma_added_nonnegative(events: Seq<Activation>)
    ensures
        added(events) >= 0,
    decreases events.len(),
{
    if events.len() > 0 {
        lemma_added_nonnegative(events.drop_first());
    }
}

/// Increments taken one per activation add up: while the operation is not
/// ready and each activation comes before the deadline the timeout started
/// from, the deadline ends up later by the sum of the increments.
pub proof fn lemma_increments_accumulate(m: TimeoutModel, events: Seq<Activation>)
    requires
        m.wf(),
        m.phase == Phase::Pending,
        m.deadline + added(events) <= max_nanos(),
        forall|i: int| 0 <= i < events.len() ==> !(#[trigger] events[i]).ready,
        forall|i: int|
            0 <= i < events.len() ==> ((#[trigger] events[i]).command is None
                || events[i].command matches Some(Command::Increment(_))),
        forall|i: int| 0 <= i < events.len() ==> (#[trigger] events[i]).now.nanos < m.deadline,
    ensures
        run(m, events) == (TimeoutModel { phase: Phase::Pending, deadline: m.deadline + added(events) }),
    decreases events.len(),
{
    if events.len() > 0 {
        let e = events[0];
        let next = step(m, e.ready, e.command, e.now.nanos as int);
        let rest = events.drop_first();
        lemma_added_nonnegative(rest);
        assert(next.deadline == m.deadline + increment_of(e));
        assert forall|j: int| 0 <= j < rest.len() implies !(#[trigger] rest[j]).ready
            && (rest[j].command is None || rest[j].command matches Some(Command::Increment(_)))
            && rest[j].now.nanos < next.deadline by {
            assert(rest[j] == events[j + 1]);
        }
        lemma_increments_accumulate(next, rest);
    }
}

} // verus!
