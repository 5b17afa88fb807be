//! The time service: conversion of the platform's monotonic microsecond
//! counter into the second/microsecond pair a user task receives, and that
//! pair's byte image.  Reading the hardware counter itself is the
//! surrounding runtime's job; the counter value enters the library as a
//! plain argument.

use vstd::bytes::{spec_u64_to_le_bytes, u64_to_le_bytes};
use vstd::prelude::*;

verus! {

/// One microsecond-resolution time stamp since an arbitrary epoch: whole
/// seconds, and the microseconds within the current second (always below
/// one million).
#[derive(Clone, Copy, Debug, PartialEq, Eq, Structural)]
pub struct TimeVal {
    pub sec: usize,
    pub usec: usize,
}

/// Size in bytes of a time stamp as it is written to user memory.
pub const TIME_VAL_BYTES: usize = 16;

/// The time stamp denoting the microsecond count `us`.
pub open spec fn spec_time_val(us: usize) -> TimeVal {
    TimeVal {
        sec: ((us as int) / 1_000_000) as usize,
        usec: ((us as int) % 1_000_000) as usize,
    }
}

/// The byte image of a time stamp as user space receives it: `sec`, then
/// `usec`, each as eight little-endian bytes.
pub open spec fn time_val_bytes(tv: TimeVal) -> Seq<u8> {
    spec_u64_to_le_bytes(tv.sec as u64) + spec_u64_to_le_bytes(tv.usec as u64)
}

impl TimeVal {
    /// Split a monotonic microsecond counter value into whole seconds and
    /// the microseconds within the current second.
    pub fn from_us(us: usize) -> (r: TimeVal)
        ensures
            r == spec_time_val(us),
    {
        TimeVal { sec: us / 1_000_000, usec: us % 1_000_000 }
    }

    /// Serialize the time stamp into the byte image user space receives.
    pub fn encode(&self) -> (r: Vec<u8>)
        ensures
            r@ == time_val_bytes(*self),
            r@.len() == TIME_VAL_BYTES,
    {
        proof {
            vstd::bytes::lemma_auto_spec_u64_to_from_le_bytes();
        }
        let mut out = u64_to_le_bytes(self.sec as u64);
        let mut tail = u64_to_le_bytes(self.usec as u64);
        out.append(&mut tail);
        out
    }
}

} // verus!
