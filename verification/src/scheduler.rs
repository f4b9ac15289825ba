//! The repaint scheduler: an optional wake time that the interface engine
//! sets and the frame driver consumes.
//!
//! All times are nanoseconds since the driver's epoch.

use vstd::prelude::*;

verus! {

/// When the interface engine next wants a pass even without new input.
#[derive(Clone, Copy, Debug, PartialEq, Eq, Structural)]
pub enum RepaintScheduler {
    /// Nothing is scheduled.
    Idle,
    /// A pass is wanted at the given time.
    Pending(u64),
}

/// The wake time that a request made at `now` for `delay` later asks for:
/// their sum, held at the largest representable time.
pub open spec fn wake_time(now: u64, delay: u64) -> u64 {
    if now + delay <= u64::MAX {
        (now + delay) as u64
    } else {
        u64::MAX
    }
}

/// Computes [`wake_time`].
pub fn wake_after(now: u64, delay: u64) -> (time: u64)
    ensures
        time == wake_time(now, delay),
{
    match now.checked_add(delay) {
        Some(time) => time,
        None => u64::MAX,
    }
}

impl RepaintScheduler {
    /// The scheduler after `request(time)`: pending at `time`, whatever it
    /// held before.
    pub open spec fn requested(self, time: u64) -> RepaintScheduler {
        RepaintScheduler::Pending(time)
    }

    /// The scheduler after `clear()`.
    pub open spec fn cleared(self) -> RepaintScheduler {
        RepaintScheduler::Idle
    }

    /// Whether a pass is scheduled at or before `now`.
    pub open spec fn due(self, now: u64) -> bool {
        match self {
            RepaintScheduler::Idle => false,
            RepaintScheduler::Pending(time) => time <= now,
        }
    }

    /// How long the event loop may wait from `now`: nothing while the surface
    /// has not granted a frame or while nothing is scheduled, else the time
    /// left until the scheduled pass, zero once it has passed.
    pub open spec fn timeout(self, now: u64, frame_permission: bool) -> Option<u64> {
        match self {
            RepaintScheduler::Idle => None,
            RepaintScheduler::Pending(time) => if !frame_permission {
                None
            } else if time <= now {
                Some(0u64)
            } else {
                Some((time - now) as u64)
            },
        }
    }

    /// The scheduler after each of `times` was requested in turn.
    pub open spec fn requested_all(self, times: Seq<u64>) -> RepaintScheduler
        decreases times.len(),
    {
        if times.len() == 0 {
            self
        } else {
            self.requested_all(times.drop_last()).requested(times.last())
        }
    }

    /// A scheduler with nothing scheduled.
    pub fn new() -> (s: Self)
        ensures
            s == RepaintScheduler::Idle,
    {
        RepaintScheduler::Idle
    }

    /// Schedules a pass at `time`, replacing any earlier request.
    pub fn request(&mut self, time: u64)
        ensures
            *final(self) == old(self).requested(time),
    {
        *self = RepaintScheduler::Pending(time);
    }

    /// Forgets the scheduled pass, at the start of a frame.
    pub fn clear(&mut self)
        ensures
            *final(self) == old(self).cleared(),
    {
        *self = RepaintScheduler::Idle;
    }

    /// Whether nothing is scheduled.
    pub fn is_idle(&self) -> (idle: bool)
        ensures
            idle == (*self == RepaintScheduler::Idle),
    {
        match self {
            RepaintScheduler::Idle => true,
            RepaintScheduler::Pending(_) => false,
        }
    }

    /// Whether a pass is scheduled at or before `now`.
    pub fn is_due(&self, now: u64) -> (due: bool)
        ensures
            due == self.due(now),
    {
        match self {
            RepaintScheduler::Idle => false,
            RepaintScheduler::Pending(time) => *time <= now,
        }
    }

    /// How long the event loop may wait from `now` before the next pass.
    pub fn timeout_until(&self, now: u64, frame_permission: bool) -> (wait: Option<u64>)
        ensures
            wait == self.timeout(now, frame_permission),
    {
        match self {
            RepaintScheduler::Idle => None,
            RepaintScheduler::Pending(time) => {
                if !frame_permission {
                    None
                } else if *time <= now {
                    Some(0)
                } else {
                    Some(*time - now)
                }
            },
        }
    }
}

/// Without a granted frame there is no timeout; with one, an idle scheduler
/// has none and a pending one has the time left until its pass, never less
/// than zero.
pub proof fn lemma_timeout_cases(s: RepaintScheduler, now: u64, frame_permission: bool)
    ensures
        !frame_permission ==> s.timeout(now, frame_permission) is None,
        frame_permission && s == RepaintScheduler::Idle ==> s.timeout(now, frame_permission)
            is None,
        forall|time: u64|
            frame_permission && s == RepaintScheduler::Pending(time) ==> s.timeout(
                now,
                frame_permission,
            ) == Some(
                (if time - now > 0 {
                    time - now
                } else {
                    0
                }) as u64,
            ),
{
}

/// A pending pass is due exactly when no time is left to wait for it.
pub proof fn lemma_due_iff_zero_timeout(s: RepaintScheduler, now: u64)
    ensures
        s.due(now) <==> s.timeout(now, true) == Some(0u64),
{
}

/// Only the most recent request matters: after any requests the scheduler is
/// pending at the last of them, and it is unchanged if there were none.
pub proof fn lemma_last_request_wins(s: RepaintScheduler, times: Seq<u64>)
    ensures
        times.len() == 0 ==> s.requested_all(times) == s,
        times.len() > 0 ==> s.requested_all(times) == RepaintScheduler::Pending(times.last()),
{
}

/// A cleared scheduler is idle, is never due and sets no timeout, until a
/// request is made.
pub proof fn lemma_cleared_is_quiet(s: RepaintScheduler, now: u64, frame_permission: bool)
    ensures
        s.cleared() == RepaintScheduler::Idle,
        !s.cleared().due(now),
        s.cleared().timeout(now, frame_permission) is None,
{
}

} // verus!
