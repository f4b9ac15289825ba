//! The repaint inbox: the one cell that the driver shares with whoever asks
//! for a repaint from another context, such as the interface engine's
//! repaint hook. The cell sits behind a reader-writer lock; the driver
//! empties it into its scheduler before it decides anything.

use crate::clock::saturate_nanos;
use crate::clock::Clock;
use crate::scheduler::wake_after;
use std::sync::Arc;
use std::time::Duration;
use vstd::prelude::*;
use vstd::rwlock::RwLock;
use vstd::rwlock::RwLockPredicate;

verus! {

/// The lock's invariant: any request, or none, may sit in the cell.
pub struct AnyRequest;

impl RwLockPredicate<Option<u64>> for AnyRequest {
    open spec fn inv(self, request: Option<u64>) -> bool {
        true
    }
}

/// A handle on the shared cell. It holds the wake time of the latest request
/// that the driver has not seen yet. What a handle reads depends on what the
/// other handles wrote, so its operations promise nothing about the cell.
/// Two handles are equal when they are on the same cell and count time on
/// the same clock.
pub struct RepaintInbox {
    cell: Arc<RwLock<Option<u64>, AnyRequest>>,
    clock: Clock,
}

impl RepaintInbox {
    /// The clock on which the handle counts time.
    pub closed spec fn clock(&self) -> Clock {
        self.clock
    }

    /// An empty inbox that counts time on `clock`.
    pub fn new(clock: Clock) -> (inbox: RepaintInbox)
        ensures
            inbox.clock() == clock,
    {
        RepaintInbox { cell: Arc::new(RwLock::new(None, Ghost(AnyRequest))), clock }
    }

    /// Another handle on the same cell, with the same clock.
    pub fn handle(&self) -> (handle: RepaintInbox)
        ensures
            handle == *self,
    {
        RepaintInbox { cell: self.cell.clone(), clock: self.clock }
    }

    /// Asks for a pass at `time`, in place of any request still in the cell.
    pub fn post(&self, time: u64) {
        let (_, guard) = self.cell.acquire_write();
        guard.release_write(Some(time));
    }

    /// Asks for a pass `delay` nanoseconds from now.
    pub fn post_after(&self, delay: u64) {
        let now = self.clock.now();
        self.post(wake_after(now, delay));
    }

    /// Asks for a pass `delay` from now.
    pub fn post_after_delay(&self, delay: Duration) {
        self.post_after(saturate_nanos(delay.as_nanos()));
    }

    /// Removes the request from the cell and returns it.
    pub fn take(&self) -> Option<u64> {
        let (request, guard) = self.cell.acquire_write();
        guard.release_write(None);
        request
    }
}

} // verus!
