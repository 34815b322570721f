//! The timer of a cycle: one tick a second, for a given time or until it is
//! cancelled.
//!
//! The timer does not wait and does not call back. Whoever drives it asks
//! before each tick whether one is due, does the tick's work, and then waits
//! for what is left of the second.

use crate::channel::poll;
use crate::time::span::span_nanos;
use crate::time::span::NANOS_PER_SEC;
use std::sync::mpsc::Receiver;
use std::time::Duration;
use vstd::prelude::*;

verus! {

/// Whether a tick is due: the timer was not cancelled and has time left.
pub open spec fn tick_due(remaining: nat, cancelled: bool) -> bool {
    !cancelled && remaining > 0
}

/// The time left after a tick: a second less, and never under zero.
pub open spec fn after_tick(remaining: nat) -> nat {
    if remaining >= NANOS_PER_SEC {
        (remaining - NANOS_PER_SEC) as nat
    } else {
        0
    }
}

/// The ticks that a time left still holds: one for every second begun.
pub open spec fn ticks_for(remaining: nat) -> nat {
    (remaining + NANOS_PER_SEC - 1) as nat / (NANOS_PER_SEC as nat)
}

/// What is left of a second after a tick's work took `elapsed` of it.
pub open spec fn pause_after(elapsed: nat) -> nat {
    if elapsed <= NANOS_PER_SEC {
        (NANOS_PER_SEC - elapsed) as nat
    } else {
        0
    }
}

/// The ticks of a whole run. `cancel_before` is the number of ticks after
/// which a cancellation is found waiting, `None` where none ever is.
pub open spec fn ticks_run(remaining: nat, cancel_before: Option<nat>) -> nat
    decreases remaining,
{
    if tick_due(remaining, cancel_before == Some(0nat)) {
        1 + ticks_run(
            after_tick(remaining),
            match cancel_before {
                Some(k) => Some((k - 1) as nat),
                None => None,
            },
        )
    } else {
        0
    }
}

/// A timer for one cycle: the channel on which it is cancelled and the time
/// it has left.
pub struct SyncTimer {
    done_ch: Receiver<bool>,
    passed: Duration,
}

impl SyncTimer {
    /// The time left, in nanoseconds.
    pub closed spec fn remaining(&self) -> nat {
        span_nanos(self.passed)
    }

    /// The channel on which the timer is cancelled.
    pub closed spec fn cancel_channel(&self) -> Receiver<bool> {
        self.done_ch
    }

    /// A timer that runs for `secs` unless a message arrives on `done_ch`.
    /// Nothing is taken off the channel yet.
    pub fn new(done_ch: Receiver<bool>, secs: Duration) -> (timer: Self)
        ensures
            timer.remaining() == span_nanos(secs),
            timer.cancel_channel() == done_ch,
    {
        Self { done_ch, passed: secs }
    }

    /// The time left.
    pub fn time_left(&self) -> (left: Duration)
        ensures
            span_nanos(left) == self.remaining(),
    {
        self.passed
    }

    /// Decides on the next tick, given whether a cancellation was found. A
    /// tick that is due takes its second off the time left.
    pub fn advance(&mut self, cancelled: bool) -> (due: bool)
        ensures
            final(self).cancel_channel() == old(self).cancel_channel(),
            due == tick_due(old(self).remaining(), cancelled),
            final(self).remaining() == if due {
                after_tick(old(self).remaining())
            } else {
                old(self).remaining()
            },
    {
        if cancelled || self.passed.as_nanos() == 0 {
            false
        } else {
            self.passed = self.passed.saturating_sub(Duration::from_secs(1));
            true
        }
    }

    /// Decides on the next tick, given what the look at the channel found. A
    /// message cancels whatever it says; no message does not.
    pub fn heed(&mut self, signal: Option<bool>) -> (due: bool)
        ensures
            final(self).cancel_channel() == old(self).cancel_channel(),
            due == tick_due(old(self).remaining(), signal is Some),
            final(self).remaining() == if due {
                after_tick(old(self).remaining())
            } else {
                old(self).remaining()
            },
    {
        self.advance(signal.is_some())
    }

    /// Asks whether the next second's tick is due: looks once for a
    /// cancellation, of whatever value, and then at the time left. No tick is
    /// due without time left, and whether one is due with time left is for
    /// the channel to say.
    pub fn next_sec(&mut self) -> (due: bool)
        ensures
            final(self).cancel_channel() == old(self).cancel_channel(),
            due ==> tick_due(old(self).remaining(), false),
            final(self).remaining() == if due {
                after_tick(old(self).remaining())
            } else {
                old(self).remaining()
            },
    {
        self.heed(poll(&self.done_ch))
    }

    /// The pause that keeps ticks a second apart: what is left of the second
    /// after the tick's work, and nothing where the work took longer.
    pub fn rest(elapsed: Duration) -> (pause: Duration)
        ensures
            span_nanos(pause) == pause_after(span_nanos(elapsed)),
    {
        Duration::from_secs(1).saturating_sub(elapsed)
    }
}

/// A timer set to whole seconds holds one tick for each of them, and a timer
/// set to nothing holds none.
pub proof fn law_one_tick_per_second(secs: nat)
    ensures
        ticks_for((secs * NANOS_PER_SEC) as nat) == secs,
        ticks_for(0) == 0,
{
}

/// Every tick takes one off the ticks that are left, and a tick is due as
/// long as any is left and no cancellation was found.
pub proof fn law_tick_counts_down(remaining: nat, cancelled: bool)
    ensures
        tick_due(remaining, cancelled) <==> !cancelled && ticks_for(remaining) > 0,
        remaining > 0 ==> ticks_for(after_tick(remaining)) == ticks_for(remaining) - 1,
        after_tick(remaining) <= remaining,
{
}

/// A run that is never cancelled ticks once for every second begun; a run
/// that finds a cancellation waiting after `k` ticks stops there, if it has
/// not run out before.
pub proof fn law_ticks_of_a_run(remaining: nat, cancel_before: Option<nat>)
    ensures
        ticks_run(remaining, cancel_before) == match cancel_before {
            None => ticks_for(remaining),
            Some(k) => if k <= ticks_for(remaining) {
                k
            } else {
                ticks_for(remaining)
            },
        },
    decreases remaining,
{
    law_tick_counts_down(remaining, cancel_before == Some(0nat));
    if tick_due(remaining, cancel_before == Some(0nat)) {
        law_ticks_of_a_run(
            after_tick(remaining),
            match cancel_before {
                Some(k) => Some((k - 1) as nat),
                None => None,
            },
        );
    }
}

} // verus!
