use vstd::prelude::*;

use crate::time::{clamp, Moment, Span};

verus! {

/// A request to move the deadline of a running timeout.
#[derive(Clone, Copy, Debug, PartialEq, Eq, Structural)]
pub enum Command {
    /// Move the deadline later by the span.
    Increment(Span),
    /// Move the deadline earlier by the span; it may land in the past.
    Decrement(Span),
    /// Replace the deadline by the moment.
    Update(Moment),
}

/// The deadline (in nanoseconds) after `command` is applied to `deadline`.
pub open spec fn adjusted(deadline: int, command: Command) -> int {
    match command {
        Command::Increment(d) => clamp(deadline + d.nanos),
        Command::Decrement(d) => clamp(deadline - d.nanos),
        Command::Update(t) => t.nanos as int,
    }
}

impl Command {
    /// The deadline that results from applying this command to `deadline`.
    pub fn apply(&self, deadline: Moment) -> (r: Moment)
        ensures
            r.nanos == adjusted(deadline.nanos as int, *self),
    {
        match self {
            Command::Increment(d) => deadline.saturating_add(*d),
            Command::Decrement(d) => deadline.saturating_sub(*d),
            Command::Update(t) => *t,
        }
    }
}

} // verus!
