use vstd::prelude::*;

verus! {

/// The deadline passed before the guarded operation finished.
#[derive(Clone, Copy, Debug, PartialEq, Eq, Structural)]
pub struct Elapsed;

/// An adjustment could not be delivered: the timeout it was meant for is gone.
#[derive(Clone, Copy, Debug, PartialEq, Eq, Structural)]
pub struct Closed;

} // verus!
