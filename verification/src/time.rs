//! Monotonic time as plain values.

use vstd::prelude::*;

verus! {

/// Nanoseconds in one second.
pub const NANOS_PER_SEC: u32 = 1_000_000_000u32;

/// A reading of a monotonic clock: the time that has passed since an origin
/// chosen by whoever reads the clock, as whole seconds and further nanoseconds.
///
/// Two readings are ordered by the time they stand for, `self@`, in
/// nanoseconds since the origin.
#[derive(Clone, Copy, Debug)]
pub struct Instant {
    pub secs: u64,
    pub nanos: u32,
}

impl View for Instant {
    type V = int;

    /// Nanoseconds since the origin.
    open spec fn view(&self) -> int {
        self.secs * (NANOS_PER_SEC as int) + self.nanos
    }
}

impl Instant {
    /// This reading moved `secs` seconds into the future.
    pub open spec fn plus_secs(self, secs: u32) -> Instant {
        Instant { secs: (self.secs + secs) as u64, nanos: self.nanos }
    }

    /// Whether `self` moved `secs` seconds into the future is still representable.
    pub open spec fn can_add_secs(self, secs: u32) -> bool {
        self.secs + secs <= u64::MAX
    }

    pub fn new(secs: u64, nanos: u32) -> (t: Instant)
        ensures
            t == (Instant { secs, nanos }),
    {
        Instant { secs, nanos }
    }

    /// Whole seconds since the origin.
    pub fn secs(&self) -> (s: u64)
        ensures
            s == self.secs,
    {
        self.secs
    }

    /// Nanoseconds beyond the whole seconds.
    pub fn subsec_nanos(&self) -> (n: u32)
        ensures
            n == self.nanos,
    {
        self.nanos
    }

    /// Whether `self` is no later than `other`.
    pub fn le(&self, other: &Instant) -> (b: bool)
        ensures
            b == (self@ <= other@),
    {
        let a: u128 = (self.secs as u128) * 1_000_000_000u128 + (self.nanos as u128);
        let b: u128 = (other.secs as u128) * 1_000_000_000u128 + (other.nanos as u128);
        a <= b
    }

    /// `self` moved `secs` seconds into the future, or `None` where that
    /// reading cannot be represented.
    pub fn checked_add_secs(&self, secs: u32) -> (t: Option<Instant>)
        ensures
            t == (if self.can_add_secs(secs) {
                Some(self.plus_secs(secs))
            } else {
                None::<Instant>
            }),
    {
        match self.secs.checked_add(secs as u64) {
            Some(s) => Some(Instant { secs: s, nanos: self.nanos }),
            None => None,
        }
    }

    /// `self` moved `secs` seconds into the future.
    pub fn add_secs(&self, secs: u32) -> (t: Instant)
        requires
            self.can_add_secs(secs),
        ensures
            t == self.plus_secs(secs),
            t@ == self@ + secs * (NANOS_PER_SEC as int),
    {
        Instant { secs: self.secs + secs as u64, nanos: self.nanos }
    }
}

} // verus!
