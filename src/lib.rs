//! A timeout whose deadline can be moved while the guarded operation runs.
//!
//! The deadline logic is a state machine over plain time values
//! ([`Moment`], [`Span`]); adjustments travel to it as [`Command`]s over an
//! unbounded channel, sent through a [`Handle`].

pub mod command;
pub mod error;
pub mod handle;
pub mod runs;
pub mod time;
pub mod timeout;

pub use command::Command;
pub use error::{Closed, Elapsed};
pub use handle::Handle;
pub use time::{Moment, Span};
pub use timeout::{Phase, TimeoutModel, TimeoutState};
