//! A rate limiter: lets an action through at most once in an interval.

use crate::time::span::span_nanos;
use std::time::Duration;
use std::time::Instant;
use vstd::prelude::*;

verus! {

/// A reading of the monotonic clock, carried as it is.
#[verifier::external_type_specification]
#[verifier::external_body]
pub struct ExInstant(Instant);

/// `Instant::now` reads the monotonic clock. Nothing is claimed of the
/// reading.
pub assume_specification[ Instant::now ]() -> Instant
;

/// `Instant::elapsed` gives the time that has passed since the instant was
/// taken. Nothing is claimed of it.
pub assume_specification[ Instant::elapsed ](origin: &Instant) -> Duration
;

/// The time from `earlier` to `now`, and nothing where `now` lies before it.
pub open spec fn gap(now: nat, earlier: nat) -> nat {
    if now >= earlier {
        (now - earlier) as nat
    } else {
        0
    }
}

/// Whether an action asked for at `now` goes through: the first one always
/// does, a later one where at least the interval has passed since the last
/// that did.
pub open spec fn allowed(last: Option<nat>, interval: nat, now: nat) -> bool {
    match last {
        None => true,
        Some(earlier) => gap(now, earlier) >= interval,
    }
}

/// Lets an action through at most once in `interval`. Times are counted
/// from the moment the limiter was made.
pub struct OnceIn {
    interval: Duration,
    started: Instant,
    last: Option<Duration>,
}

impl OnceIn {
    /// The least time between two actions, in nanoseconds.
    pub closed spec fn interval(&self) -> nat {
        span_nanos(self.interval)
    }

    /// When the last action went through, in nanoseconds since the limiter
    /// was made; `None` before the first.
    pub closed spec fn last(&self) -> Option<nat> {
        match self.last {
            Some(at) => Some(span_nanos(at)),
            None => None,
        }
    }

    pub fn new(interval: Duration) -> (limiter: Self)
        ensures
            limiter.interval() == span_nanos(interval),
            limiter.last() == None::<nat>,
    {
        Self { interval, started: Instant::now(), last: None }
    }

    /// Decides on an action asked for at `now`, and takes note of it where it
    /// goes through.
    pub fn pass(&mut self, now: Duration) -> (go: bool)
        ensures
            go == allowed(old(self).last(), old(self).interval(), span_nanos(now)),
            final(self).interval() == old(self).interval(),
            final(self).last() == if go {
                Some(span_nanos(now))
            } else {
                old(self).last()
            },
    {
        let go = match self.last {
            None => true,
            Some(earlier) => now.saturating_sub(earlier).as_nanos() >= self.interval.as_nanos(),
        };
        if go {
            self.last = Some(now);
        }
        go
    }

    /// Runs `cb` if an action asked for at `now` goes through, and hands its
    /// result back; does nothing otherwise. An action that fails has still
    /// used up its turn.
    pub fn if_allow_at<E, F: FnMut() -> Result<(), E>>(&mut self, now: Duration, mut cb: F) -> (outcome:
        Result<(), E>)
        requires
            cb.requires(()),
        ensures
            final(self).interval() == old(self).interval(),
            allowed(old(self).last(), old(self).interval(), span_nanos(now)) ==> {
                &&& final(self).last() == Some(span_nanos(now))
                &&& cb.ensures((), outcome)
            },
            !allowed(old(self).last(), old(self).interval(), span_nanos(now)) ==> {
                &&& final(self).last() == old(self).last()
                &&& outcome.is_ok()
            },
    {
        if self.pass(now) {
            cb()
        } else {
            Ok(())
        }
    }

    /// Runs `cb` if the interval has passed since it last ran, or if it never
    /// did. The time is read from the monotonic clock: the first call always
    /// runs `cb`, and a later one does whatever `if_allow_at` does at the
    /// time that the clock gave.
    pub fn if_allow<E, F: FnMut() -> Result<(), E>>(&mut self, cb: F) -> (outcome: Result<(), E>)
        requires
            cb.requires(()),
        ensures
            final(self).interval() == old(self).interval(),
            old(self).last() is None ==> final(self).last() is Some && cb.ensures((), outcome),
            exists|now: nat|
                {
                    &&& #[trigger] allowed(old(self).last(), old(self).interval(), now) ==> {
                        &&& final(self).last() == Some(now)
                        &&& cb.ensures((), outcome)
                    }
                    &&& !allowed(old(self).last(), old(self).interval(), now) ==> {
                        &&& final(self).last() == old(self).last()
                        &&& outcome.is_ok()
                    }
                },
    {
        let now = self.started.elapsed();
        self.if_allow_at(now, cb)
    }
}

/// The first action always goes through. Of two actions the second goes
/// through exactly when it comes at least the interval after the first: so
/// two calls less than the interval apart run the action once, and two calls
/// the interval or more apart run it twice.
pub proof fn law_once_in_interval(interval: nat, first: nat, second: nat)
    requires
        first <= second,
    ensures
        allowed(None, interval, first),
        allowed(Some(first), interval, second) <==> second - first >= interval,
{
}

} // verus!
