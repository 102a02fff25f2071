use vstd::prelude::*;

verus! {

/// The earliest instant that a [`Moment`] can hold, in nanoseconds.
pub open spec fn min_nanos() -> int {
    i128::MIN as int
}

/// The latest instant that a [`Moment`] can hold, in nanoseconds.
pub open spec fn max_nanos() -> int {
    i128::MAX as int
}

/// `x`, held to the range of a [`Moment`].
pub open spec fn clamp(x: int) -> int {
    if x < min_nanos() {
        min_nanos()
    } else if x > max_nanos() {
        max_nanos()
    } else {
        x
    }
}

/// A length of time, in nanoseconds.
#[derive(Clone, Copy, Debug, PartialEq, Eq, Structural)]
pub struct Span {
    pub nanos: u128,
}

/// A point in time: signed nanoseconds from a fixed reference instant.
#[derive(Clone, Copy, Debug, PartialEq, Eq, Structural)]
pub struct Moment {
    pub nanos: i128,
}

impl Span {
    pub fn from_nanos(nanos: u128) -> (r: Span)
        ensures
            r.nanos == nanos,
    {
        Span { nanos }
    }

    pub fn from_millis(millis: u64) -> (r: Span)
        ensures
            r.nanos == millis * 1_000_000,
    {
        Span { nanos: millis as u128 * 1_000_000 }
    }
}

/// `n + d` held to the range of `i128`, for `n >= 0`.
fn add_from_nonnegative(n: i128, d: u128) -> (r: i128)
    requires
        n >= 0,
    ensures
        r == clamp(n + d),
{
    let room = (i128::MAX - n) as u128;
    if d > room {
        i128::MAX
    } else {
        n + d as i128
    }
}

/// `n - d` held to the range of `i128`, for `n < 0`.
fn sub_from_negative(n: i128, d: u128) -> (r: i128)
    requires
        n < 0,
    ensures
        r == clamp(n - d),
{
    let room = (n - i128::MIN) as u128;
    if d > room {
        i128::MIN
    } else {
        n - d as i128
    }
}

impl Moment {
    pub fn from_nanos(nanos: i128) -> (r: Moment)
        ensures
            r.nanos == nanos,
    {
        Moment { nanos }
    }

    pub fn from_millis(millis: i64) -> (r: Moment)
        ensures
            r.nanos == millis * 1_000_000,
    {
        Moment { nanos: millis as i128 * 1_000_000 }
    }

    /// The moment `d` later, or the latest moment where that one cannot be held.
    pub fn saturating_add(self, d: Span) -> (r: Moment)
        ensures
            r.nanos == clamp(self.nanos + d.nanos),
    {
        let n = self.nanos;
        if n >= 0 {
            Moment { nanos: add_from_nonnegative(n, d.nanos) }
        } else if d.nanos <= i128::MAX as u128 {
            Moment { nanos: n + d.nanos as i128 }
        } else {
            // Past the maximum signed value: move to the non-negative half first.
            let base: i128 = (n + i128::MAX) + 1;
            let rest: u128 = d.nanos - i128::MAX as u128 - 1;
            Moment { nanos: add_from_nonnegative(base, rest) }
        }
    }

    /// The moment `d` earlier, or the earliest moment where that one cannot be held.
    pub fn saturating_sub(self, d: Span) -> (r: Moment)
        ensures
            r.nanos == clamp(self.nanos - d.nanos),
    {
        let n = self.nanos;
        if n < 0 {
            Moment { nanos: sub_from_negative(n, d.nanos) }
        } else if d.nanos <= i128::MAX as u128 {
            Moment { nanos: n - d.nanos as i128 }
        } else {
            // Past the maximum signed value: move to the negative half first.
            let base: i128 = (n - i128::MAX) - 1;
            let rest: u128 = d.nanos - i128::MAX as u128 - 1;
            Moment { nanos: sub_from_negative(base, rest) }
        }
    }
}

} // verus!
