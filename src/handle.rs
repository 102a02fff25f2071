use vstd::prelude::*;

use tokio::sync::mpsc::UnboundedSender;

use crate::command::Command;
use crate::error::Closed;
use crate::time::{Moment, Span};

verus! {

#[verifier::external_type_specification]
#[verifier::external_body]
#[verifier::reject_recursive_types(T)]
pub struct ExUnboundedSender<T>(tokio::sync::mpsc::UnboundedSender<T>);

/// Relies on tokio's `Clone` for `UnboundedSender`: it makes another sender
/// on the same channel, and nothing is stated of it here.
pub assume_specification<T>[ <tokio::sync::mpsc::UnboundedSender<T> as core::clone::Clone>::clone ](
    s: &tokio::sync::mpsc::UnboundedSender<T>,
) -> tokio::sync::mpsc::UnboundedSender<T>;

/// Relies on tokio's `UnboundedSender::send`: it never waits, and when the
/// receiving half is closed its error hands back the message it was given.
#[verifier::external_body]
fn send_command(tx: &UnboundedSender<Command>, command: Command) -> (r: Result<(), Command>)
    ensures
        r matches Err(c) ==> c == command,
{
    tx.send(command).map_err(|e| e.0)
}

/// What a handle reports for one send: success, or [`Closed`] where the
/// channel gave the command back.
pub fn delivery(sent: Result<(), Command>) -> (r: Result<(), Closed>)
    ensures
        sent is Ok ==> r == Ok::<(), Closed>(()),
        sent is Err ==> r == Err::<(), Closed>(Closed),
{
    match sent {
        Ok(()) => Ok(()),
        Err(_) => Err(Closed),
    }
}

/// The sending side of a timeout's command channel.
///
/// Sends never wait: each one only queues its command for the timeout,
/// which applies it on a later activation. A send fails with [`Closed`]
/// once the timeout has dropped its end of the channel. A clone sends on the
/// same channel.
#[derive(Clone)]
pub struct Handle {
    tx: UnboundedSender<Command>,
}

impl Handle {
    pub fn new(tx: UnboundedSender<Command>) -> Handle {
        Handle { tx }
    }

    /// Queues a command for the timeout.
    fn send(&self, command: Command) -> (r: Result<(), Closed>) {
        delivery(send_command(&self.tx, command))
    }

    /// Asks the timeout to move its deadline `value` later.
    pub fn increment(&self, value: Span) -> (r: Result<(), Closed>) {
        self.send(Command::Increment(value))
    }

    /// Asks the timeout to move its deadline `value` earlier.
    pub fn decrement(&self, value: Span) -> (r: Result<(), Closed>) {
        self.send(Command::Decrement(value))
    }

    /// Asks the timeout to replace its deadline by `deadline`.
    pub fn update(&self, deadline: Moment) -> (r: Result<(), Closed>) {
        self.send(Command::Update(deadline))
    }
}

} // verus!
