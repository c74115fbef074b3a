//! Points and lengths of time on a monotonic clock, counted in nanoseconds.
//!
//! A `Moment` is a reading of the clock, counted from an origin that the
//! caller fixes once; a `Span` is a length of time. Both hold a plain `u128`,
//! wide enough for every length that a standard `Duration` can hold.
use vstd::prelude::*;

verus! {

/// Nanoseconds in one microsecond.
pub const NANOS_PER_MICRO: u128 = 1000;

/// Nanoseconds in one millisecond.
pub const NANOS_PER_MILLI: u128 = 1_000_000;

/// Nanoseconds in one second.
pub const NANOS_PER_SEC: u128 = 1_000_000_000;

/// A length of time, in nanoseconds.
#[derive(Clone, Copy, Debug, PartialEq, Eq, Structural)]
pub struct Span {
    pub nanos: u128,
}

/// A reading of the monotonic clock, in nanoseconds since the clock's origin.
#[derive(Clone, Copy, Debug, PartialEq, Eq, Structural)]
pub struct Moment {
    pub nanos: u128,
}

impl Span {
    /// The empty length of time.
    pub fn zero() -> (span: Span)
        ensures
            span.nanos == 0,
    {
        Span { nanos: 0 }
    }

    /// A span of `nanos` nanoseconds.
    pub fn from_nanos(nanos: u128) -> (span: Span)
        ensures
            span.nanos == nanos,
    {
        Span { nanos }
    }

    /// A span of `micros` microseconds.
    pub fn from_micros(micros: u64) -> (span: Span)
        ensures
            span.nanos == micros * 1000,
    {
        Span { nanos: micros as u128 * NANOS_PER_MICRO }
    }

    /// A span of `millis` milliseconds.
    pub fn from_millis(millis: u64) -> (span: Span)
        ensures
            span.nanos == millis * 1_000_000,
    {
        Span { nanos: millis as u128 * NANOS_PER_MILLI }
    }

    /// The whole microseconds in this span, rounded down.
    pub fn as_micros(&self) -> (micros: u128)
        ensures
            micros == self.nanos / 1000,
    {
        self.nanos / NANOS_PER_MICRO
    }

    /// The whole seconds in this span, rounded down.
    pub fn whole_secs(&self) -> (secs: u128)
        ensures
            secs == self.nanos / 1_000_000_000,
    {
        self.nanos / NANOS_PER_SEC
    }

    /// The nanoseconds left over after the whole seconds.
    pub fn subsec_nanos(&self) -> (nanos: u32)
        ensures
            nanos == self.nanos % 1_000_000_000,
            nanos < 1_000_000_000,
    {
        (self.nanos % NANOS_PER_SEC) as u32
    }
}

impl Moment {
    /// The clock reading `nanos` nanoseconds after the origin.
    pub fn from_nanos(nanos: u128) -> (moment: Moment)
        ensures
            moment.nanos == nanos,
    {
        Moment { nanos }
    }

    /// The moment `span` after this one, or `None` where the clock cannot
    /// count that far.
    pub fn checked_add(self, span: Span) -> (later: Option<Moment>)
        ensures
            later == (if self.nanos + span.nanos <= u128::MAX {
                Some(Moment { nanos: (self.nanos + span.nanos) as u128 })
            } else {
                None
            }),
    {
        match self.nanos.checked_add(span.nanos) {
            Some(nanos) => Some(Moment { nanos }),
            None => None,
        }
    }

    /// The moment `span` before this one, or `None` where that lies before
    /// the clock's origin.
    pub fn checked_sub(self, span: Span) -> (earlier: Option<Moment>)
        ensures
            earlier == (if span.nanos <= self.nanos {
                Some(Moment { nanos: (self.nanos - span.nanos) as u128 })
            } else {
                None
            }),
    {
        if span.nanos <= self.nanos {
            Some(Moment { nanos: self.nanos - span.nanos })
        } else {
            None
        }
    }
}

} // verus!
