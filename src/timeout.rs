use vstd::prelude::*;

use crate::command::{adjusted, Command};
use crate::error::Elapsed;
use crate::time::{clamp, max_nanos, min_nanos, Moment, Span};

verus! {

/// Where a timeout stands: still running, or resolved one way or the other.
#[derive(Clone, Copy, Debug, PartialEq, Eq, Structural)]
pub enum Phase {
    Pending,
    /// The operation finished first; its output was handed out.
    Completed,
    /// The deadline passed first.
    TimedOut,
}

/// The abstract state of a timeout: its phase and its deadline in nanoseconds.
pub struct TimeoutModel {
    pub phase: Phase,
    pub deadline: int,
}

impl TimeoutModel {
    /// The deadline lies in the range of a [`Moment`].
    pub open spec fn wf(self) -> bool {
        min_nanos() <= self.deadline <= max_nanos()
    }
}

/// A pending timeout whose deadline is `duration` after `now`.
pub open spec fn started(now: Moment, duration: Span) -> TimeoutModel {
    TimeoutModel { phase: Phase::Pending, deadline: clamp(now.nanos + duration.nanos) }
}

/// The state after one activation.
///
/// A resolved timeout stays as it is. Otherwise an operation that is ready
/// wins; else the command, if any, moves the deadline, and the timeout expires
/// when `now` has reached the (possibly moved) deadline.
pub open spec fn step(m: TimeoutModel, ready: bool, command: Option<Command>, now: int) -> TimeoutModel {
    if m.phase != Phase::Pending {
        m
    } else if ready {
        TimeoutModel { phase: Phase::Completed, deadline: m.deadline }
    } else {
        let d = match command {
            Some(c) => adjusted(m.deadline, c),
            None => m.deadline,
        };
        TimeoutModel { phase: if now >= d { Phase::TimedOut } else { Phase::Pending }, deadline: d }
    }
}

/// What an activation yields when it moves the timeout from `before` to `after`.
pub open spec fn outcome<T>(before: TimeoutModel, after: TimeoutModel, output: Option<T>) -> Option<Result<T, Elapsed>> {
    if before.phase == Phase::Pending && after.phase == Phase::Completed {
        Some(Ok(output->0))
    } else if before.phase == Phase::Pending && after.phase == Phase::TimedOut {
        Some(Err(Elapsed))
    } else {
        None
    }
}

/// The deadline logic of one timeout, driven one activation at a time.
pub struct TimeoutState {
    phase: Phase,
    deadline: Moment,
}

impl View for TimeoutState {
    type V = TimeoutModel;

    closed spec fn view(&self) -> TimeoutModel {
        TimeoutModel { phase: self.phase, deadline: self.deadline.nanos as int }
    }
}

impl TimeoutState {
    /// A pending timeout whose deadline is `duration` after `now`.
    pub fn start(now: Moment, duration: Span) -> (r: TimeoutState)
        ensures
            r@ == started(now, duration),
    {
        TimeoutState { phase: Phase::Pending, deadline: now.saturating_add(duration) }
    }

    /// The abstract state of every timeout has its deadline in range.
    pub proof fn lemma_view_wf(&self)
        ensures
            self@.wf(),
    {
    }

    pub fn phase(&self) -> (r: Phase)
        ensures
            r == self@.phase,
    {
        self.phase
    }

    pub fn deadline(&self) -> (r: Moment)
        ensures
            r.nanos == self@.deadline,
    {
        self.deadline
    }

    /// One activation: `output` is what the operation produced on this
    /// activation, if it finished; `command` the adjustment taken from the
    /// queue, if any; `now` the current time.
    ///
    /// Yields the resolution when this activation resolves the timeout, and
    /// `None` while it stays pending or once it has been resolved before.
    ///
    /// An activation applies at most one command: when several are queued,
    /// the rest wait for later activations. A command passed together with an
    /// output is not applied, as the output resolves the timeout first.
    pub fn activate<T>(&mut self, output: Option<T>, command: Option<Command>, now: Moment) -> (r: Option<Result<T, Elapsed>>)
        ensures
            final(self)@ == step(old(self)@, output is Some, command, now.nanos as int),
            r == outcome(old(self)@, final(self)@, output),
    {
        if self.phase != Phase::Pending {
            return None;
        }
        match output {
            Some(v) => {
                self.phase = Phase::Completed;
                Some(Ok(v))
            },
            None => {
                if let Some(c) = command {
                    self.deadline = c.apply(self.deadline);
                }
                if now.nanos >= self.deadline.nanos {
                    self.phase = Phase::TimedOut;
                    Some(Err(Elapsed))
                } else {
                    None
                }
            },
        }
    }
}

} // verus!
