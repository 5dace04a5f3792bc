//! Player identities and microsecond timestamps, the two database value
//! types that the game rules compare and add.

use vstd::prelude::*;

verus! {

/// A player's 256-bit identity, held as its high and low halves.
#[derive(Clone, Copy, Debug, PartialEq, Eq, Hash, Structural)]
pub struct Identity {
    pub high: u128,
    pub low: u128,
}

impl Identity {
    pub fn from_halves(high: u128, low: u128) -> (r: Identity)
        ensures
            r.high == high,
            r.low == low,
    {
        Identity { high, low }
    }

    /// Whether two identities are the same player.
    pub fn same_as(&self, other: &Identity) -> (r: bool)
        ensures
            r == (*self == *other),
    {
        self.high == other.high && self.low == other.low
    }
}

/// A signed span of time in microseconds.
#[derive(Clone, Copy, Debug, PartialEq, Eq, Hash, Structural)]
pub struct TimeDuration {
    pub micros: i64,
}

impl TimeDuration {
    pub fn from_micros(micros: i64) -> (r: TimeDuration)
        ensures
            r.micros == micros,
    {
        TimeDuration { micros }
    }

    pub fn to_micros(&self) -> (r: i64)
        ensures
            r == self.micros,
    {
        self.micros
    }
}

/// A point in time, in microseconds before or after the Unix epoch.
#[derive(Clone, Copy, Debug, PartialEq, Eq, Hash, Structural)]
pub struct Timestamp {
    pub micros_since_unix_epoch: i64,
}

impl Timestamp {
    pub fn from_micros_since_unix_epoch(micros: i64) -> (r: Timestamp)
        ensures
            r.micros_since_unix_epoch == micros,
    {
        Timestamp { micros_since_unix_epoch: micros }
    }

    pub fn to_micros_since_unix_epoch(&self) -> (r: i64)
        ensures
            r == self.micros_since_unix_epoch,
    {
        self.micros_since_unix_epoch
    }

    /// `self + duration`, or `None` when the sum is not a 64-bit count of
    /// microseconds.
    pub fn checked_add(&self, duration: TimeDuration) -> (r: Option<Timestamp>)
        ensures
            r == spec_checked_add(*self, duration),
    {
        match self.micros_since_unix_epoch.checked_add(duration.micros) {
            Some(micros) => Some(Timestamp { micros_since_unix_epoch: micros }),
            None => None,
        }
    }

    /// Whether `self` comes strictly after `other`.
    pub fn is_after(&self, other: &Timestamp) -> (r: bool)
        ensures
            r == (self.micros_since_unix_epoch > other.micros_since_unix_epoch),
    {
        self.micros_since_unix_epoch > other.micros_since_unix_epoch
    }
}

pub open spec fn spec_checked_add(t: Timestamp, d: TimeDuration) -> Option<Timestamp> {
    let sum = t.micros_since_unix_epoch + d.micros;
    if i64::MIN <= sum <= i64::MAX {
        Some(Timestamp { micros_since_unix_epoch: sum as i64 })
    } else {
        None
    }
}

} // verus!
