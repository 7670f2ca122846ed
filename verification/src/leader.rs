//! The leader timer: the single piece of state behind the leader-key
//! composition window.
//!
//! Pressing the leader key arms the timer at the current time; the engine is
//! "composing" while strictly less than [`COMPOSE_TIMEOUT_MS`] milliseconds
//! have elapsed since arming. There is no disarm event: composing-ness is
//! recomputed from the clock on every later key press.

use vstd::prelude::*;

verus! {

/// Length of the leader-key composition window, in milliseconds.
pub const COMPOSE_TIMEOUT_MS: u64 = 500;

/// State of the leader-key timer.
///
/// `armed` is false until the leader key is first observed, so that the very
/// first keystroke after startup is never treated as composing.
#[derive(Clone, Copy, PartialEq, Eq, Structural, Debug)]
pub struct LeaderTimer {
    /// Whether the leader key has ever armed the timer.
    pub armed: bool,
    /// Time of the most recent arming, in monotonic milliseconds.
    pub armed_at: u64,
}

/// Whether the timer is inside its composition window at time `now`.
///
/// The window is half-open: exactly `COMPOSE_TIMEOUT_MS` milliseconds after
/// arming the window has already elapsed. A clock reading older than the
/// arming time never counts as composing.
pub open spec fn is_composing_at(t: LeaderTimer, now: u64) -> bool {
    t.armed && t.armed_at <= now && now - t.armed_at < COMPOSE_TIMEOUT_MS
}

impl LeaderTimer {
    /// A timer that has never been armed: the engine starts idle.
    pub fn new() -> (t: LeaderTimer)
        ensures
            !t.armed,
            t == (LeaderTimer { armed: false, armed_at: 0 }),
    {
        LeaderTimer { armed: false, armed_at: 0 }
    }

    /// Arm the timer: the leader key was observed at time `now`.
    pub fn arm(&mut self, now: u64)
        ensures
            *final(self) == (LeaderTimer { armed: true, armed_at: now }),
    {
        self.armed = true;
        self.armed_at = now;
    }

    /// Whether the composition window is open at time `now`.
    pub fn is_composing(&self, now: u64) -> (b: bool)
        ensures
            b == is_composing_at(*self, now),
    {
        self.armed && self.armed_at <= now && now - self.armed_at < COMPOSE_TIMEOUT_MS
    }
}

/// The composition window has a strict-less-than boundary: exactly
/// `COMPOSE_TIMEOUT_MS` milliseconds after arming, composing is already false,
/// while one millisecond earlier it is still true.
pub proof fn lemma_compose_window_boundary(t: LeaderTimer, now: u64)
    requires
        t.armed,
        t.armed_at <= now,
    ensures
        now - t.armed_at == COMPOSE_TIMEOUT_MS ==> !is_composing_at(t, now),
        now - t.armed_at == COMPOSE_TIMEOUT_MS - 1 ==> is_composing_at(t, now),
{
}

} // verus!
