//! The command side of the dryer.
//!
//! The coordinator turns commands into work for the control side. A start
//! becomes a timer with a cancellation token of its own, queued for the
//! control side, which runs one cycle at a time in the order of the queue. A
//! stop is sent to the oldest token whose cycle is not over, so that it ends
//! the cycle that runs and no other, and a token is never used twice. The
//! coordinator keeps, as ghost state, the lengths of the cycles that the
//! queue took and the answers of the tokens that were sent a signal.

use crate::channel::offer;
use crate::channel::signal;
use crate::channel::Delivery;
use crate::dryer::State;
use crate::dryer::StateView;
use crate::mqtt::Command;
use crate::time::span::span_nanos;
use crate::time::timer::SyncTimer;
use crossbeam_channel::Sender;
use std::time::Duration;
use vstd::prelude::*;

verus! {

/// Why a cycle could not be handed to the control side.
#[derive(Clone, Copy, Debug, PartialEq, Eq, Structural)]
pub enum CoordinatorError {
    /// The queue of cycles has no room.
    QueueFull,
    /// The control side is gone.
    ControlGone,
}

/// What the queue's answer means for a start.
pub open spec fn queued(delivery: Delivery) -> Result<(), CoordinatorError> {
    match delivery {
        Delivery::Sent => Ok(()),
        Delivery::Full => Err(CoordinatorError::QueueFull),
        Delivery::Disconnected => Err(CoordinatorError::ControlGone),
    }
}

/// The command side: the queue of cycles and the tokens of the cycles that
/// may still run.
pub struct Coordinator {
    cycles: Sender<SyncTimer>,
    tokens: Vec<std::sync::mpsc::Sender<bool>>,
    lengths: Ghost<Seq<nat>>,
    answers: Ghost<Seq<bool>>,
}

/// What a stop does to the tokens, whatever they answer. The tokens are
/// tried from the oldest on, and `given` are their answers in that order:
/// every token tried is dropped, every answer but the last is a refusal, and
/// the stop ends with the first token that takes the signal or, where none
/// does, with no token left.
pub open spec fn stopped(
    tokens_before: Seq<std::sync::mpsc::Sender<bool>>,
    tokens_after: Seq<std::sync::mpsc::Sender<bool>>,
    answers_before: Seq<bool>,
    answers_after: Seq<bool>,
) -> bool {
    exists|given: Seq<bool>|
        {
            &&& given.len() <= tokens_before.len()
            &&& answers_after == answers_before + given
            &&& tokens_after == #[trigger] tokens_before.skip(given.len() as int)
            &&& forall|i: int| 0 <= i < given.len() - 1 ==> !given[i]
            &&& (given.len() > 0 && given.last()) || tokens_after.len() == 0
        }
}

impl Coordinator {
    /// The tokens of the cycles that were started and that no stop was sent
    /// to yet, oldest first.
    pub closed spec fn tokens(&self) -> Seq<std::sync::mpsc::Sender<bool>> {
        self.tokens@
    }

    /// The number of those cycles.
    pub open spec fn outstanding(&self) -> nat {
        self.tokens().len()
    }

    /// The queue on which the cycles are put for the control side.
    pub closed spec fn queue(&self) -> Sender<SyncTimer> {
        self.cycles
    }

    /// The lengths, in nanoseconds, of the cycles that the queue has taken,
    /// oldest first.
    pub closed spec fn queued_lengths(&self) -> Seq<nat> {
        self.lengths@
    }

    /// What the tokens that were sent a signal answered, oldest first:
    /// `true` for a token that took the signal, `false` for one whose cycle
    /// was over.
    pub closed spec fn answers(&self) -> Seq<bool> {
        self.answers@
    }

    /// A coordinator that queues its cycles on `cycles`. It has started no
    /// cycle and sent no signal yet.
    pub fn new(cycles: Sender<SyncTimer>) -> (coordinator: Self)
        ensures
            coordinator.queue() == cycles,
            coordinator.tokens() == Seq::<std::sync::mpsc::Sender<bool>>::empty(),
            coordinator.queued_lengths() == Seq::<nat>::empty(),
            coordinator.answers() == Seq::<bool>::empty(),
    {
        Coordinator {
            cycles,
            tokens: Vec::new(),
            lengths: Ghost(Seq::empty()),
            answers: Ghost(Seq::empty()),
        }
    }

    /// The report that goes out as soon as a command comes in: a start
    /// reports a running cycle, a stop none.
    pub fn announce(command: &Command) -> (report: State)
        ensures
            report@ == (StateView {
                active: command is Start,
                temperature: 0,
                action: Seq::empty(),
            }),
    {
        match command {
            Command::Start(_) => State::active(),
            Command::Stop => State::inactive(),
        }
    }

    /// The outcome of a start, given the queue's answer.
    pub fn accepted(delivery: Delivery) -> (outcome: Result<(), CoordinatorError>)
        ensures
            outcome == queued(delivery),
    {
        match delivery {
            Delivery::Sent => Ok(()),
            Delivery::Full => Err(CoordinatorError::QueueFull),
            Delivery::Disconnected => Err(CoordinatorError::ControlGone),
        }
    }

    /// Makes the timer of a cycle of the given length and the token that
    /// cancels it.
    pub fn mint(duration: Duration) -> (pair: (std::sync::mpsc::Sender<bool>, SyncTimer))
        ensures
            pair.1.remaining() == span_nanos(duration),
    {
        let (token, done) = std::sync::mpsc::channel::<bool>();
        (token, SyncTimer::new(done, duration))
    }

    /// Queues a cycle of the given length with a token of its own, on the
    /// coordinator's queue. Whether the queue takes the cycle is for the queue
    /// to say. Where it does, the cycle's length is the last that was queued
    /// and its token is kept behind those of the cycles started before;
    /// where it does not, nothing is kept of the cycle.
    pub fn start(&mut self, duration: Duration) -> (outcome: Result<(), CoordinatorError>)
        ensures
            final(self).queue() == old(self).queue(),
            final(self).answers() == old(self).answers(),
            outcome.is_ok() ==> {
                &&& final(self).queued_lengths() == old(self).queued_lengths().push(
                    span_nanos(duration),
                )
                &&& final(self).outstanding() == old(self).outstanding() + 1
                &&& final(self).tokens().drop_last() == old(self).tokens()
            },
            outcome.is_err() ==> {
                &&& final(self).queued_lengths() == old(self).queued_lengths()
                &&& final(self).tokens() == old(self).tokens()
            },
    {
        let (token, timer) = Self::mint(duration);
        let outcome = Self::accepted(offer(&self.cycles, timer));
        if outcome.is_ok() {
            self.tokens.push(token);
            proof {
                self.lengths@ = self.lengths@.push(span_nanos(duration));
                assert(self.tokens@.drop_last() =~= old(self).tokens@);
            }
        }
        outcome
    }

    /// Whether a stop goes on to the next token after one has answered: it
    /// does where the token did not take the signal and another is left.
    pub fn goes_on(taken: bool, left: usize) -> (more: bool)
        ensures
            more == (!taken && left > 0),
    {
        !taken && left > 0
    }

    /// Cancels the oldest cycle that is not over. The tokens are sent the
    /// signal from the oldest on: those of cycles that are over refuse it and
    /// are dropped, and so is the first that takes it, for a token is used
    /// once. The tokens behind it stay as they are. Without a token
    /// outstanding nothing is sent.
    pub fn stop(&mut self)
        ensures
            final(self).queue() == old(self).queue(),
            final(self).queued_lengths() == old(self).queued_lengths(),
            stopped(
                old(self).tokens(),
                final(self).tokens(),
                old(self).answers(),
                final(self).answers(),
            ),
    {
        let ghost mut given = Seq::<bool>::empty();
        let mut more = self.tokens.len() > 0;
        proof {
            assert(self.tokens@ =~= old(self).tokens@.skip(0));
            assert(self.answers@ =~= old(self).answers@ + given);
        }
        while more
            invariant
                self.cycles == old(self).cycles,
                self.lengths@ == old(self).lengths@,
                given.len() <= old(self).tokens@.len(),
                self.answers@ == old(self).answers@ + given,
                self.tokens@ == old(self).tokens@.skip(given.len() as int),
                forall|i: int| 0 <= i < given.len() - 1 ==> !given[i],
                more ==> self.tokens@.len() > 0 && (given.len() > 0 ==> !given.last()),
                !more ==> (given.len() > 0 && given.last()) || self.tokens@.len() == 0,
            decreases self.tokens@.len(),
        {
            let token = self.tokens.remove(0);
            let taken = signal(&token);
            more = Self::goes_on(taken, self.tokens.len());
            proof {
                self.answers@ = self.answers@.push(taken);
                assert(self.tokens@ =~= old(self).tokens@.skip(given.len() as int + 1));
                assert(self.answers@ =~= old(self).answers@ + given.push(taken));
                given = given.push(taken);
            }
        }
    }

    /// Carries out a command: a start queues a cycle, a stop cancels the
    /// oldest that is not over and never fails.
    pub fn dispatch(&mut self, command: Command) -> (outcome: Result<(), CoordinatorError>)
        ensures
            final(self).queue() == old(self).queue(),
            match command {
                Command::Start(duration) => {
                    &&& final(self).answers() == old(self).answers()
                    &&& outcome.is_ok() ==> {
                        &&& final(self).queued_lengths() == old(self).queued_lengths().push(
                            span_nanos(duration),
                        )
                        &&& final(self).outstanding() == old(self).outstanding() + 1
                        &&& final(self).tokens().drop_last() == old(self).tokens()
                    }
                    &&& outcome.is_err() ==> {
                        &&& final(self).queued_lengths() == old(self).queued_lengths()
                        &&& final(self).tokens() == old(self).tokens()
                    }
                },
                Command::Stop => {
                    &&& outcome.is_ok()
                    &&& final(self).queued_lengths() == old(self).queued_lengths()
                    &&& stopped(
                        old(self).tokens(),
                        final(self).tokens(),
                        old(self).answers(),
                        final(self).answers(),
                    )
                },
            },
    {
        match command {
            Command::Start(duration) => self.start(duration),
            Command::Stop => {
                self.stop();
                Ok(())
            },
        }
    }
}

/// A stop with no token outstanding sends nothing and changes nothing; a
/// stop with tokens outstanding sends at least one signal and leaves fewer
/// tokens; and a stop sends the signal to one cycle at most: no answer
/// before the last is that of a token that took it.
pub proof fn law_stop_reaches_one_cycle(
    tokens_before: Seq<std::sync::mpsc::Sender<bool>>,
    tokens_after: Seq<std::sync::mpsc::Sender<bool>>,
    answers_before: Seq<bool>,
    answers_after: Seq<bool>,
)
    requires
        stopped(tokens_before, tokens_after, answers_before, answers_after),
    ensures
        tokens_before.len() == 0 ==> tokens_after == tokens_before && answers_after
            == answers_before,
        tokens_before.len() > 0 ==> tokens_after.len() < tokens_before.len() && answers_after.len()
            > answers_before.len(),
        answers_after.len() - answers_before.len() == tokens_before.len() - tokens_after.len(),
        forall|i: int|
            answers_before.len() <= i < answers_after.len() - 1 ==> !(#[trigger] answers_after[i]),
{
    let given = choose|given: Seq<bool>|
        {
            &&& given.len() <= tokens_before.len()
            &&& answers_after == answers_before + given
            &&& tokens_after == #[trigger] tokens_before.skip(given.len() as int)
            &&& forall|i: int| 0 <= i < given.len() - 1 ==> !given[i]
            &&& (given.len() > 0 && given.last()) || tokens_after.len() == 0
        };
    if tokens_before.len() == 0 {
        assert(given.len() == 0);
        assert(tokens_after =~= tokens_before);
        assert(answers_after =~= answers_before);
    }
    assert forall|i: int| answers_before.len() <= i < answers_after.len() - 1 implies !(
    #[trigger] answers_after[i]) by {
        assert(answers_after[i] == given[i - answers_before.len()]);
    }
}

} // verus!
