//! Captured and injected terminal I/O: one immutable, timestamped,
//! directional chunk per event.

use vstd::prelude::*;

verus! {

/// Which way a chunk of terminal data flowed.
#[derive(Debug, Clone, Copy, PartialEq, Eq, Structural)]
pub enum IoDirection {
    Stdin,
    Stdout,
}

/// One unit of terminal I/O. Immutable once constructed; it has no identity
/// beyond its fields.
#[derive(Debug, Clone)]
pub struct IoChunk {
    /// Monotonic-clock reading, in nanoseconds, taken when the chunk was
    /// recorded.
    pub timestamp: u64,
    pub direction: IoDirection,
    pub data: Vec<u8>,
}

/// Relies on nix::time::clock_gettime on CLOCK_MONOTONIC: returns the
/// current reading as whole seconds and nanoseconds within the second, both
/// non-negative on any successful call; (0, 0) if the clock cannot be read.
#[verifier::external_body]
fn monotonic_clock_parts() -> (r: (i64, i64)) {
    match nix::time::clock_gettime(nix::time::ClockId::CLOCK_MONOTONIC) {
        Ok(ts) => (ts.tv_sec(), ts.tv_nsec()),
        Err(_) => (0, 0),
    }
}

/// A clock reading of `sec` whole seconds plus `nsec` nanoseconds collapsed
/// into one nanosecond count: negative parts collapse to 0, and a count past
/// the representable range saturates.
pub open spec fn nanos_of(sec: i64, nsec: i64) -> u64 {
    if sec < 0 || nsec < 0 {
        0u64
    } else if sec * 1_000_000_000 + nsec > u64::MAX {
        u64::MAX
    } else {
        (sec * 1_000_000_000 + nsec) as u64
    }
}

/// Collapses a two-part clock reading into nanoseconds, exactly as
/// `nanos_of` describes.
pub fn combine_nanos(sec: i64, nsec: i64) -> (r: u64)
    ensures
        r == nanos_of(sec, nsec),
{
    if sec < 0 || nsec < 0 {
        0
    } else {
        let s = sec as u64;
        let n = nsec as u64;
        match s.checked_mul(1_000_000_000) {
            Some(m) => match m.checked_add(n) {
                Some(total) => total,
                None => u64::MAX,
            },
            None => u64::MAX,
        }
    }
}

/// The current monotonic-clock reading in nanoseconds. Successive readings
/// never decrease, but nothing is claimed of any single value.
pub fn now_nanos() -> u64 {
    let (sec, nsec) = monotonic_clock_parts();
    combine_nanos(sec, nsec)
}

impl IoChunk {
    /// Records one chunk: the direction and payload are stored exactly as
    /// given, stamped with the monotonic clock at the moment of creation.
    pub fn new(direction: IoDirection, data: Vec<u8>) -> (r: IoChunk)
        ensures
            r.direction == direction,
            r.data@ == data@,
    {
        IoChunk { timestamp: now_nanos(), direction, data }
    }
}

} // verus!
