//! Time as the library counts it: whole nanoseconds since an epoch, in a
//! `u64`, taken from the monotonic clock.

use std::time::Instant;
use vstd::prelude::*;

verus! {

/// A nanosecond count held at the largest `u64` where it does not fit.
pub open spec fn saturated(nanos: u128) -> u64 {
    if nanos <= u64::MAX {
        nanos as u64
    } else {
        u64::MAX
    }
}

/// Computes [`saturated`].
pub fn saturate_nanos(nanos: u128) -> (time: u64)
    ensures
        time == saturated(nanos),
{
    if nanos > 0xffff_ffff_ffff_ffffu128 {
        u64::MAX
    } else {
        nanos as u64
    }
}

/// The epoch from which the driver counts time.
#[derive(Clone, Copy)]
pub struct Clock {
    epoch: Instant,
}

impl Clock {
    /// A clock whose epoch is the moment of the call.
    pub fn start() -> Clock {
        Clock { epoch: Instant::now() }
    }

    /// Nanoseconds since the epoch, as the monotonic clock reads now.
    pub fn now(&self) -> u64 {
        let elapsed = self.epoch.elapsed();
        saturate_nanos(elapsed.as_nanos())
    }
}

} // verus!
