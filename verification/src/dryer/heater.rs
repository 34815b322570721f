//! The heater: a power relay, a fan and a temperature sensor held to a target.
//!
//! The heater owns its actuators. It keeps, as ghost state, the list of the
//! commands that the actuators have acknowledged and the list of the reports
//! that it has offered to a channel, so that each contract can say which
//! commands were given and which reports went where, and in which order.

use crate::channel::offer;
use crate::channel::Delivery;
use crate::dryer::regulator::evaluation;
use crate::dryer::regulator::session_after;
use crate::dryer::regulator::Action;
use crate::dryer::regulator::Actuation;
use crate::dryer::regulator::CycleError;
use crate::dryer::regulator::RegulatorSession;
use crate::dryer::regulator::SessionView;
use crate::dryer::regulator::Verdict;
use crate::dryer::regulator::MAX_FAILED_READS;
use crate::dryer::State;
use crate::dryer::StateView;
use crate::time::span::span_nanos;
use crate::time::timer::after_tick;
use crate::time::timer::tick_due;
use crate::time::timer::SyncTimer;
use crossbeam_channel::Sender;
use embedded_hal::digital::OutputPin;
use std::time::Duration;
use vstd::prelude::*;

verus! {

/// A sensor read that failed.
#[derive(Clone, Copy, Debug, PartialEq, Eq, Structural)]
pub struct SensorError;

/// An actuator that refused a command, and what it said of it.
#[derive(Clone, Debug, PartialEq, Eq)]
pub struct ActuatorError {
    pub said: String,
}

/// A source of temperature readings in whole degrees Celsius.
pub trait TempSensor {
    fn read_celsius(&mut self) -> Result<u16, SensorError>;
}

/// Airflow levels the fan can be asked for.
#[derive(Clone, Copy, Debug, PartialEq, Eq, Structural)]
pub enum FanSpeed {
    Middle,
    Max,
    Low,
    Off,
}

/// A fan that can be set to a level.
pub trait FanSpeedRegulator {
    fn speed(&mut self, speed: FanSpeed) -> Result<(), ActuatorError>;
}

/// Whether `e` is the error with which the command is refused: each kind of
/// command has its own, so that a relay that would not switch off is told
/// from one that would not switch on.
pub open spec fn refused(command: Actuation, e: CycleError) -> bool {
    match command {
        Actuation::PowerOn => e is PowerOn,
        Actuation::PowerOff => e is PowerOff,
        Actuation::Fan(_) => e is Fan,
    }
}

/// How a list of commands ran: on success all of them were acknowledged in
/// order; on failure those before the refused one were, and the error is
/// that of the refused one.
pub open spec fn ran(
    before: Seq<Actuation>,
    after: Seq<Actuation>,
    commands: Seq<Actuation>,
    outcome: Result<(), CycleError>,
) -> bool {
    match outcome {
        Ok(_) => after == before + commands,
        Err(e) => exists|k: int|
            0 <= k < commands.len() && after == before + #[trigger] commands.take(k) && refused(
                commands[k],
                e,
            ),
    }
}

/// The commands that switch everything off.
pub open spec fn stop_commands() -> Seq<Actuation> {
    seq![Actuation::PowerOff, Actuation::Fan(FanSpeed::Off)]
}

/// The relay as the acknowledged commands leave it: `None` while it was
/// never commanded.
pub open spec fn power_after(issued: Seq<Actuation>) -> Option<bool>
    decreases issued.len(),
{
    if issued.len() == 0 {
        None
    } else {
        match issued.last() {
            Actuation::PowerOn => Some(true),
            Actuation::PowerOff => Some(false),
            Actuation::Fan(_) => power_after(issued.drop_last()),
        }
    }
}

/// The fan as the acknowledged commands leave it: `None` while it was never
/// commanded.
pub open spec fn fan_after(issued: Seq<Actuation>) -> Option<FanSpeed>
    decreases issued.len(),
{
    if issued.len() == 0 {
        None
    } else {
        match issued.last() {
            Actuation::Fan(speed) => Some(speed),
            _ => fan_after(issued.drop_last()),
        }
    }
}

/// Running one list of commands and then, if that went well, another is
/// running the two lists joined.
pub proof fn lemma_ran_then(
    before: Seq<Actuation>,
    between: Seq<Actuation>,
    after: Seq<Actuation>,
    first: Seq<Actuation>,
    second: Seq<Actuation>,
    outcome: Result<(), CycleError>,
)
    requires
        ran(before, between, first, Ok(())),
        ran(between, after, second, outcome),
    ensures
        ran(before, after, first + second, outcome),
{
    match outcome {
        Ok(_) => {
            assert(after =~= before + (first + second));
        },
        Err(e) => {
            let k = choose|k: int|
                0 <= k < second.len() && after == between + #[trigger] second.take(k) && refused(
                    second[k],
                    e,
                );
            let j = first.len() + k;
            assert((first + second).take(j) =~= first + second.take(k));
            assert(after =~= before + (first + second).take(j));
            assert((first + second)[j] == second[k]);
        },
    }
}

/// A list of commands that stopped short stopped the longer list short that
/// it begins.
pub proof fn lemma_ran_short(
    before: Seq<Actuation>,
    after: Seq<Actuation>,
    first: Seq<Actuation>,
    second: Seq<Actuation>,
    e: CycleError,
)
    requires
        ran(before, after, first, Err(e)),
    ensures
        ran(before, after, first + second, Err(e)),
{
    let k = choose|k: int|
        0 <= k < first.len() && after == before + #[trigger] first.take(k) && refused(
            first[k],
            e,
        );
    assert((first + second).take(k) =~= first.take(k));
    assert((first + second)[k] == first[k]);
}

/// Drives the pin high through `OutputPin::set_high`, and puts a refusal
/// into words as the pin's error prints itself. Whether the pin takes the
/// command is for the hardware to say: nothing is claimed of the result.
#[verifier::external_body]
fn drive_high<P: OutputPin>(pin: &mut P) -> (outcome: Result<(), ActuatorError>) {
    match pin.set_high() {
        Ok(_) => Ok(()),
        Err(e) => Err(ActuatorError { said: format!("{:?}", e) }),
    }
}

/// Drives the pin low through `OutputPin::set_low`, and puts a refusal into
/// words as the pin's error prints itself. Nothing is claimed of the result.
#[verifier::external_body]
fn drive_low<P: OutputPin>(pin: &mut P) -> (outcome: Result<(), ActuatorError>) {
    match pin.set_low() {
        Ok(_) => Ok(()),
        Err(e) => Err(ActuatorError { said: format!("{:?}", e) }),
    }
}

/// What a delivery means for the cycle: a report lost to a full channel is
/// put up with, a channel without a receiver ends the cycle.
pub open spec fn settled(delivery: Delivery) -> Result<(), CycleError> {
    if delivery == Delivery::Disconnected {
        Err(CycleError::StateChannelClosed)
    } else {
        Ok(())
    }
}

/// Says what a delivery means for the cycle.
pub fn settle(delivery: Delivery) -> (outcome: Result<(), CycleError>)
    ensures
        outcome == settled(delivery),
{
    match delivery {
        Delivery::Disconnected => Err(CycleError::StateChannelClosed),
        _ => Ok(()),
    }
}

/// One report handed to a channel: the channel, what the report said, and
/// what the channel answered.
pub struct Offer {
    pub to: Sender<State>,
    pub report: StateView,
    pub answer: Delivery,
}

/// Whether exactly one report was offered between `before` and `after`:
/// this report, to this channel, with an answer that means `outcome`.
pub open spec fn offered_one(
    before: Seq<Offer>,
    after: Seq<Offer>,
    to: Sender<State>,
    report: StateView,
    outcome: Result<(), CycleError>,
) -> bool {
    &&& after.len() == before.len() + 1
    &&& after.drop_last() == before
    &&& after.last().to == to
    &&& after.last().report == report
    &&& outcome == settled(after.last().answer)
}

/// Publishes a report without waiting for room or for a reader.
pub fn publish(states: &Sender<State>, state: State) -> (outcome: Result<(), CycleError>)
    ensures
        outcome.is_ok() || outcome == Err::<(), CycleError>(CycleError::StateChannelClosed),
{
    settle(offer(states, state))
}

/// What a tick that took `reading` leaves behind: the commands acknowledged
/// and the report to publish.
///
/// A failed read commands nothing and reports nothing, and ends the cycle
/// once too many have failed. A good read has the verdict's commands carried
/// out in order and reports the reading with the verdict's action; where an
/// actuator refuses, the commands before the refused one stand and the
/// error names the actuator.
pub open spec fn responded(
    before: Seq<Actuation>,
    after: Seq<Actuation>,
    target: u16,
    session: SessionView,
    reading: Result<u16, SensorError>,
    outcome: Result<Option<State>, CycleError>,
) -> bool {
    match evaluation(session, target, reading) {
        Err(fatal) => {
            &&& after == before
            &&& outcome matches Err(e) && e == fatal
        },
        Ok(None) => {
            &&& after == before
            &&& outcome is Ok
            &&& outcome->Ok_0 is None
        },
        Ok(Some(verdict)) => match outcome {
            Ok(Some(state)) => {
                &&& ran(before, after, verdict.commands(), Ok(()))
                &&& reading matches Ok(temperature) && state@ == (StateView {
                    active: true,
                    temperature,
                    action: verdict.action_spec().label_spec(),
                })
            },
            Ok(None) => false,
            Err(e) => ran(before, after, verdict.commands(), Err(e)),
        },
    }
}

/// What one tick of a cycle leaves behind, whatever the sensor, the
/// actuators and the channel did: for some reading, the session is the one
/// after that reading and the heater responded to it. A response that made a
/// report had that report, and no other, offered to the channel, and the
/// tick's outcome is what the channel's answer means; a response that made
/// none offered nothing, and the tick's outcome is the response's.
pub open spec fn ticked(
    before: Seq<Actuation>,
    after: Seq<Actuation>,
    target: u16,
    session_before: SessionView,
    session_now: SessionView,
    offered_before: Seq<Offer>,
    offered_now: Seq<Offer>,
    channel: Sender<State>,
    outcome: Result<(), CycleError>,
) -> bool {
    exists|reading: Result<u16, SensorError>, report: Result<Option<State>, CycleError>|
        {
            &&& session_now == session_after(session_before, target, reading)
            &&& #[trigger] responded(before, after, target, session_before, reading, report)
            &&& match report {
                Err(e) => offered_now == offered_before && outcome == Err::<(), CycleError>(e),
                Ok(None) => offered_now == offered_before && outcome == Ok::<(), CycleError>(()),
                Ok(Some(state)) => offered_one(
                    offered_before,
                    offered_now,
                    channel,
                    state@,
                    outcome,
                ),
            }
        }
}

/// A cycle under way: its timer, what the regulator remembers of it, and
/// where its reports go.
pub struct Cycle {
    timer: SyncTimer,
    session: RegulatorSession,
    states: Sender<State>,
    over: bool,
}

impl Cycle {
    /// The time the cycle has left, in nanoseconds.
    pub closed spec fn remaining(&self) -> nat {
        self.timer.remaining()
    }

    /// What the regulator remembers of the cycle.
    pub closed spec fn session(&self) -> SessionView {
        self.session@
    }

    /// Whether the cycle is over: it ran out, was cancelled, or failed.
    pub closed spec fn over(&self) -> bool {
        self.over
    }

    /// The channel on which the cycle is cancelled.
    pub closed spec fn cancel_channel(&self) -> std::sync::mpsc::Receiver<bool> {
        self.timer.cancel_channel()
    }

    /// The channel to which the cycle's reports go.
    pub closed spec fn reports_to(&self) -> Sender<State> {
        self.states
    }

    pub fn is_over(&self) -> (over: bool)
        ensures
            over == self.over(),
    {
        self.over
    }

    pub fn target_reached(&self) -> (latched: bool)
        ensures
            latched == self.session().latched,
    {
        self.session.target_reached()
    }

    pub fn consecutive_failures(&self) -> (failures: u64)
        ensures
            failures == self.session().failures,
    {
        self.session.consecutive_failures()
    }

    pub fn time_left(&self) -> (left: Duration)
        ensures
            span_nanos(left) == self.remaining(),
    {
        self.timer.time_left()
    }
}

/// A heater: the relay pin, the sensor, the fan and the target temperature.
pub struct Heater<P, S: TempSensor, F: FanSpeedRegulator> {
    power: P,
    sensor: S,
    fan: F,
    target_temperature: u16,
    failure_limit: u32,
    issued: Ghost<Seq<Actuation>>,
    offered: Ghost<Seq<Offer>>,
}

impl<P: OutputPin, S: TempSensor, F: FanSpeedRegulator> Heater<P, S, F> {
    /// The temperature the heater holds the drum to.
    pub closed spec fn target(&self) -> u16 {
        self.target_temperature
    }

    /// The commands that the actuators have acknowledged so far, oldest
    /// first.
    pub closed spec fn issued(&self) -> Seq<Actuation> {
        self.issued@
    }

    /// The number of failed reads in a row that the heater's cycles
    /// tolerate.
    pub closed spec fn failure_limit(&self) -> nat {
        self.failure_limit as nat
    }

    /// The reports that the heater has offered to a channel so far, oldest
    /// first.
    pub closed spec fn offered(&self) -> Seq<Offer> {
        self.offered@
    }

    /// A heater that holds `target_temperature` and whose cycles tolerate
    /// `MAX_FAILED_READS` failed reads in a row. No command was given yet.
    pub fn new(power: P, target_temperature: u16, sensor: S, fan: F) -> (heater: Self)
        ensures
            heater.target() == target_temperature,
            heater.failure_limit() == MAX_FAILED_READS,
            heater.issued() == Seq::<Actuation>::empty(),
            heater.offered() == Seq::<Offer>::empty(),
    {
        Heater {
            power,
            target_temperature,
            sensor,
            fan,
            failure_limit: MAX_FAILED_READS,
            issued: Ghost(Seq::empty()),
            offered: Ghost(Seq::empty()),
        }
    }

    /// The same heater with cycles that tolerate `limit` failed reads in a
    /// row.
    pub fn with_failure_limit(self, limit: u32) -> (heater: Self)
        ensures
            heater.target() == self.target(),
            heater.failure_limit() == limit,
            heater.issued() == self.issued(),
            heater.offered() == self.offered(),
    {
        Heater {
            power: self.power,
            target_temperature: self.target_temperature,
            sensor: self.sensor,
            fan: self.fan,
            failure_limit: limit,
            issued: self.issued,
            offered: self.offered,
        }
    }

    pub fn target_temperature(&self) -> (target: u16)
        ensures
            target == self.target(),
    {
        self.target_temperature
    }

    fn power_on(&mut self) -> (outcome: Result<(), CycleError>)
        ensures
            final(self).target() == old(self).target(),
            final(self).failure_limit() == old(self).failure_limit(),
            final(self).offered() == old(self).offered(),
            ran(old(self).issued(), final(self).issued(), seq![Actuation::PowerOn], outcome),
    {
        match drive_high(&mut self.power) {
            Ok(_) => {
                proof {
                    self.issued@ = self.issued@.push(Actuation::PowerOn);
                    assert(self.issued@ =~= old(self).issued@ + seq![Actuation::PowerOn]);
                }
                Ok(())
            },
            Err(refusal) => {
                proof {
                    let only = seq![Actuation::PowerOn];
                    assert(self.issued@ =~= old(self).issued@ + only.take(0));
                }
                Err(CycleError::PowerOn(refusal.said))
            },
        }
    }

    fn power_off(&mut self) -> (outcome: Result<(), CycleError>)
        ensures
            final(self).target() == old(self).target(),
            final(self).failure_limit() == old(self).failure_limit(),
            final(self).offered() == old(self).offered(),
            ran(old(self).issued(), final(self).issued(), seq![Actuation::PowerOff], outcome),
    {
        match drive_low(&mut self.power) {
            Ok(_) => {
                proof {
                    self.issued@ = self.issued@.push(Actuation::PowerOff);
                    assert(self.issued@ =~= old(self).issued@ + seq![Actuation::PowerOff]);
                }
                Ok(())
            },
            Err(refusal) => {
                proof {
                    let only = seq![Actuation::PowerOff];
                    assert(self.issued@ =~= old(self).issued@ + only.take(0));
                }
                Err(CycleError::PowerOff(refusal.said))
            },
        }
    }

    fn fan_speed(&mut self, speed: FanSpeed) -> (outcome: Result<(), CycleError>)
        ensures
            final(self).target() == old(self).target(),
            final(self).failure_limit() == old(self).failure_limit(),
            final(self).offered() == old(self).offered(),
            ran(old(self).issued(), final(self).issued(), seq![Actuation::Fan(speed)], outcome),
    {
        match self.fan.speed(speed) {
            Ok(_) => {
                proof {
                    self.issued@ = self.issued@.push(Actuation::Fan(speed));
                    assert(self.issued@ =~= old(self).issued@ + seq![Actuation::Fan(speed)]);
                }
                Ok(())
            },
            Err(refusal) => {
                proof {
                    let only = seq![Actuation::Fan(speed)];
                    assert(self.issued@ =~= old(self).issued@ + only.take(0));
                }
                Err(CycleError::Fan(refusal.said))
            },
        }
    }

    /// Relay, then fan: the two commands of every action.
    fn relay_then_fan(&mut self, on: bool, speed: FanSpeed) -> (outcome: Result<(), CycleError>)
        ensures
            final(self).target() == old(self).target(),
            final(self).failure_limit() == old(self).failure_limit(),
            final(self).offered() == old(self).offered(),
            ran(
                old(self).issued(),
                final(self).issued(),
                seq![if on { Actuation::PowerOn } else { Actuation::PowerOff }, Actuation::Fan(speed)],
                outcome,
            ),
    {
        let ghost relay = if on {
            Actuation::PowerOn
        } else {
            Actuation::PowerOff
        };
        let switched = if on {
            self.power_on()
        } else {
            self.power_off()
        };
        match switched {
            Ok(_) => {
                let ghost between = self.issued();
                let fanned = self.fan_speed(speed);
                proof {
                    lemma_ran_then(
                        old(self).issued(),
                        between,
                        self.issued(),
                        seq![relay],
                        seq![Actuation::Fan(speed)],
                        fanned,
                    );
                    assert(seq![relay] + seq![Actuation::Fan(speed)] =~= seq![
                        relay,
                        Actuation::Fan(speed),
                    ]);
                }
                fanned
            },
            Err(e) => {
                proof {
                    lemma_ran_short(
                        old(self).issued(),
                        self.issued(),
                        seq![relay],
                        seq![Actuation::Fan(speed)],
                        e,
                    );
                    assert(seq![relay] + seq![Actuation::Fan(speed)] =~= seq![
                        relay,
                        Actuation::Fan(speed),
                    ]);
                }
                Err(e)
            },
        }
    }

    fn heat(&mut self) -> (outcome: Result<(), CycleError>)
        ensures
            final(self).target() == old(self).target(),
            final(self).failure_limit() == old(self).failure_limit(),
            final(self).offered() == old(self).offered(),
            ran(old(self).issued(), final(self).issued(), Action::Heat.commands(), outcome),
    {
        self.relay_then_fan(true, FanSpeed::Low)
    }

    fn dry(&mut self) -> (outcome: Result<(), CycleError>)
        ensures
            final(self).target() == old(self).target(),
            final(self).failure_limit() == old(self).failure_limit(),
            final(self).offered() == old(self).offered(),
            ran(old(self).issued(), final(self).issued(), Action::Dry.commands(), outcome),
    {
        self.relay_then_fan(true, FanSpeed::Middle)
    }

    fn cooling(&mut self) -> (outcome: Result<(), CycleError>)
        ensures
            final(self).target() == old(self).target(),
            final(self).failure_limit() == old(self).failure_limit(),
            final(self).offered() == old(self).offered(),
            ran(old(self).issued(), final(self).issued(), Action::Cooling.commands(), outcome),
    {
        self.relay_then_fan(false, FanSpeed::Max)
    }

    /// Gives the commands of each rule that fired, in the order of the
    /// rules, up to the first that an actuator refuses.
    pub fn apply(&mut self, verdict: Verdict) -> (outcome: Result<(), CycleError>)
        ensures
            final(self).target() == old(self).target(),
            final(self).failure_limit() == old(self).failure_limit(),
            final(self).offered() == old(self).offered(),
            ran(old(self).issued(), final(self).issued(), verdict.commands(), outcome),
    {
        let ghost none = Seq::<Actuation>::empty();
        let ghost heat = if verdict.heat { Action::Heat.commands() } else { none };
        let ghost dry = if verdict.dry { Action::Dry.commands() } else { none };
        let ghost cooling = if verdict.cooling { Action::Cooling.commands() } else { none };
        let ghost start = self.issued();
        assert(start =~= start + none);

        let heated = if verdict.heat {
            self.heat()
        } else {
            Ok(())
        };
        let ghost after_heat = self.issued();
        if let Err(e) = heated {
            proof {
                lemma_ran_short(start, after_heat, heat, dry + cooling, e);
                assert(heat + (dry + cooling) =~= verdict.commands());
            }
            return Err(e);
        }
        assert(after_heat =~= after_heat + none);
        let dried = if verdict.dry {
            self.dry()
        } else {
            Ok(())
        };
        let ghost after_dry = self.issued();
        if let Err(e) = dried {
            proof {
                lemma_ran_short(after_heat, after_dry, dry, cooling, e);
                lemma_ran_then(start, after_heat, after_dry, heat, dry + cooling, Err(e));
                assert(heat + (dry + cooling) =~= verdict.commands());
            }
            return Err(e);
        }
        assert(after_dry =~= after_dry + none);
        let cooled = if verdict.cooling {
            self.cooling()
        } else {
            Ok(())
        };
        proof {
            lemma_ran_then(after_heat, after_dry, self.issued(), dry, cooling, cooled);
            lemma_ran_then(start, after_heat, self.issued(), heat, dry + cooling, cooled);
            assert(heat + (dry + cooling) =~= verdict.commands());
        }
        cooled
    }

    /// One tick of the regulator on a reading that was already taken.
    pub fn respond(
        &mut self,
        session: &mut RegulatorSession,
        reading: Result<u16, SensorError>,
    ) -> (outcome: Result<Option<State>, CycleError>)
        ensures
            final(self).target() == old(self).target(),
            final(self).failure_limit() == old(self).failure_limit(),
            final(self).offered() == old(self).offered(),
            final(session)@ == session_after(old(session)@, old(self).target(), reading),
            responded(
                old(self).issued(),
                final(self).issued(),
                old(self).target(),
                old(session)@,
                reading,
                outcome,
            ),
    {
        match session.evaluate(self.target_temperature, reading) {
            Err(fatal) => Err(fatal),
            Ok(None) => Ok(None),
            Ok(Some(verdict)) => {
                let temperature = match reading {
                    Ok(temperature) => temperature,
                    Err(_) => 0,
                };
                match self.apply(verdict) {
                    Ok(_) => {
                        let word = verdict.action().label();
                        Ok(Some(State::new(true, temperature, word.to_owned())))
                    },
                    Err(e) => Err(e),
                }
            },
        }
    }

    /// One tick of the regulator: reads the sensor and responds to what it
    /// gave. The report to publish, if any, is returned.
    pub fn regulate(&mut self, session: &mut RegulatorSession) -> (outcome: Result<
        Option<State>,
        CycleError,
    >)
        ensures
            final(self).target() == old(self).target(),
            final(self).failure_limit() == old(self).failure_limit(),
            final(self).offered() == old(self).offered(),
            exists|reading: Result<u16, SensorError>|
                {
                    &&& final(session)@ == session_after(
                        old(session)@,
                        old(self).target(),
                        reading,
                    )
                    &&& #[trigger] responded(
                        old(self).issued(),
                        final(self).issued(),
                        old(self).target(),
                        old(session)@,
                        reading,
                        outcome,
                    )
                },
    {
        let reading = self.sensor.read_celsius();
        let outcome = self.respond(session, reading);
        assert(responded(
            old(self).issued(),
            self.issued(),
            old(self).target(),
            old(session)@,
            reading,
            outcome,
        ));
        outcome
    }

    /// Offers a report to a channel, without waiting for room or for a
    /// reader, and takes note of the offer and of the channel's answer.
    pub fn report(&mut self, states: &Sender<State>, state: State) -> (outcome: Result<
        (),
        CycleError,
    >)
        ensures
            final(self).target() == old(self).target(),
            final(self).failure_limit() == old(self).failure_limit(),
            final(self).issued() == old(self).issued(),
            offered_one(old(self).offered(), final(self).offered(), *states, state@, outcome),
    {
        let ghost said = state@;
        let answer = offer(states, state);
        proof {
            self.offered@ = self.offered@.push(Offer { to: *states, report: said, answer });
            assert(self.offered@.drop_last() =~= old(self).offered@);
        }
        settle(answer)
    }

    /// One tick of a cycle: regulates, and offers the report of a good read
    /// to `states`. A report that finds the channel full is dropped; a
    /// channel without a receiver ends the cycle.
    pub fn tick(&mut self, session: &mut RegulatorSession, states: &Sender<State>) -> (outcome:
        Result<(), CycleError>)
        ensures
            final(self).target() == old(self).target(),
            final(self).failure_limit() == old(self).failure_limit(),
            ticked(
                old(self).issued(),
                final(self).issued(),
                old(self).target(),
                old(session)@,
                final(session)@,
                old(self).offered(),
                final(self).offered(),
                *states,
                outcome,
            ),
    {
        let report = self.regulate(session);
        match report {
            Err(e) => Err(e),
            Ok(None) => Ok(()),
            Ok(Some(state)) => self.report(states, state),
        }
    }

    /// Begins a cycle: a fresh session on the given timer, reporting to
    /// `state`. Nothing is read or commanded yet.
    pub fn start(&mut self, timer: SyncTimer, state: Sender<State>) -> (cycle: Cycle)
        ensures
            *final(self) == *old(self),
            cycle.remaining() == timer.remaining(),
            cycle.session() == (SessionView {
                failures: 0,
                latched: false,
                limit: old(self).failure_limit(),
            }),
            !cycle.over(),
            cycle.cancel_channel() == timer.cancel_channel(),
            cycle.reports_to() == state,
    {
        Cycle {
            timer,
            session: RegulatorSession::tolerating(self.failure_limit),
            states: state,
            over: false,
        }
    }

    /// The next step of a cycle. A cycle that is over stays over. Otherwise
    /// the cycle looks once for a cancellation; where it was cancelled or
    /// has no time left it is over, and `false` comes back with nothing
    /// done. Otherwise a tick runs and takes its second off the time left:
    /// `true` asks the caller to wait out the rest of the second and come
    /// again, an error ends the cycle.
    pub fn next_tick(&mut self, cycle: &mut Cycle) -> (outcome: Result<bool, CycleError>)
        ensures
            final(self).target() == old(self).target(),
            final(self).failure_limit() == old(self).failure_limit(),
            final(cycle).cancel_channel() == old(cycle).cancel_channel(),
            final(cycle).reports_to() == old(cycle).reports_to(),
            final(cycle).over() == (outcome != Ok::<bool, CycleError>(true)),
            old(cycle).over() ==> outcome == Ok::<bool, CycleError>(false),
            match outcome {
                Ok(false) => {
                    &&& final(cycle).remaining() == old(cycle).remaining()
                    &&& final(cycle).session() == old(cycle).session()
                    &&& final(self).issued() == old(self).issued()
                    &&& final(self).offered() == old(self).offered()
                },
                Ok(true) => {
                    &&& tick_due(old(cycle).remaining(), false)
                    &&& final(cycle).remaining() == after_tick(old(cycle).remaining())
                    &&& ticked(
                        old(self).issued(),
                        final(self).issued(),
                        old(self).target(),
                        old(cycle).session(),
                        final(cycle).session(),
                        old(self).offered(),
                        final(self).offered(),
                        old(cycle).reports_to(),
                        Ok(()),
                    )
                },
                Err(e) => {
                    &&& tick_due(old(cycle).remaining(), false)
                    &&& final(cycle).remaining() == after_tick(old(cycle).remaining())
                    &&& ticked(
                        old(self).issued(),
                        final(self).issued(),
                        old(self).target(),
                        old(cycle).session(),
                        final(cycle).session(),
                        old(self).offered(),
                        final(self).offered(),
                        old(cycle).reports_to(),
                        Err(e),
                    )
                },
            },
    {
        if cycle.over {
            return Ok(false);
        }
        if cycle.timer.next_sec() {
            match self.tick(&mut cycle.session, &cycle.states) {
                Ok(_) => Ok(true),
                Err(e) => {
                    cycle.over = true;
                    Err(e)
                },
            }
        } else {
            cycle.over = true;
            Ok(false)
        }
    }

    /// Ends a cycle, however it went: switches everything off, then offers
    /// to `states` the report that no cycle runs, whatever the stop gave. The
    /// first thing that went wrong is what comes back: the cycle's own error,
    /// else the stop's, else the report's.
    pub fn conclude(&mut self, cycle: Result<(), CycleError>, states: &Sender<State>) -> (outcome:
        Result<(), CycleError>)
        ensures
            final(self).target() == old(self).target(),
            final(self).failure_limit() == old(self).failure_limit(),
            exists|stopped: Result<(), CycleError>, reported: Result<(), CycleError>|
                {
                    &&& #[trigger] ran(
                        old(self).issued(),
                        final(self).issued(),
                        stop_commands(),
                        stopped,
                    )
                    &&& #[trigger] offered_one(
                        old(self).offered(),
                        final(self).offered(),
                        *states,
                        StateView { active: false, temperature: 0, action: Seq::empty() },
                        reported,
                    )
                    &&& outcome == match cycle {
                        Err(e) => Err::<(), CycleError>(e),
                        Ok(_) => match stopped {
                            Err(e) => Err::<(), CycleError>(e),
                            Ok(_) => reported,
                        },
                    }
                },
    {
        let stopped = self.stop();
        let reported = self.report(states, State::inactive());
        match cycle {
            Err(e) => Err(e),
            Ok(_) => match stopped {
                Err(e) => Err(e),
                Ok(_) => reported,
            },
        }
    }

    /// Switches the relay off and then the fan off, whatever they were.
    pub fn stop(&mut self) -> (outcome: Result<(), CycleError>)
        ensures
            final(self).target() == old(self).target(),
            final(self).failure_limit() == old(self).failure_limit(),
            final(self).offered() == old(self).offered(),
            ran(old(self).issued(), final(self).issued(), stop_commands(), outcome),
    {
        self.relay_then_fan(false, FanSpeed::Off)
    }
}

/// After a relay command and a fan command the relay and the fan are as
/// those two commands say, whatever came before.
pub proof fn lemma_relay_then_fan(issued: Seq<Actuation>, on: bool, speed: FanSpeed)
    ensures
        power_after(
            issued + seq![if on { Actuation::PowerOn } else { Actuation::PowerOff }, Actuation::Fan(speed)],
        ) == Some(on),
        fan_after(
            issued + seq![if on { Actuation::PowerOn } else { Actuation::PowerOff }, Actuation::Fan(speed)],
        ) == Some(speed),
{
    let relay = if on {
        Actuation::PowerOn
    } else {
        Actuation::PowerOff
    };
    let all = issued + seq![relay, Actuation::Fan(speed)];
    assert(all.last() == Actuation::Fan(speed));
    assert(all.drop_last() =~= issued + seq![relay]);
    assert(all.drop_last().last() == relay);
    assert(power_after(all.drop_last()) == Some(on));
    assert(power_after(all) == power_after(all.drop_last()));
}

/// A tick that reads under the target while not latched, and whose commands
/// are all acknowledged, reports "heat" and leaves the relay on and the fan
/// low.
pub proof fn law_heat_switches_on(
    before: Seq<Actuation>,
    after: Seq<Actuation>,
    target: u16,
    session: SessionView,
    temperature: u16,
    state: State,
)
    requires
        !session.latched,
        temperature < target,
        responded(before, after, target, session, Ok(temperature), Ok(Some(state))),
    ensures
        state@ == (StateView { active: true, temperature, action: "heat"@ }),
        after == before + seq![Actuation::PowerOn, Actuation::Fan(FanSpeed::Low)],
        power_after(after) == Some(true),
        fan_after(after) == Some(FanSpeed::Low),
{
    crate::dryer::regulator::law_heat_below_target(target, temperature);
    lemma_relay_then_fan(before, true, FanSpeed::Low);
}

/// A tick that reads from the target up to the upper bound, and whose
/// commands are all acknowledged, reports "dry" and leaves the relay on and
/// the fan at its middle level, latched or not.
pub proof fn law_dry_keeps_heating(
    before: Seq<Actuation>,
    after: Seq<Actuation>,
    target: u16,
    session: SessionView,
    temperature: u16,
    state: State,
)
    requires
        target <= temperature < crate::dryer::regulator::high_bound(target),
        responded(before, after, target, session, Ok(temperature), Ok(Some(state))),
    ensures
        state@ == (StateView { active: true, temperature, action: "dry"@ }),
        after == before + seq![Actuation::PowerOn, Actuation::Fan(FanSpeed::Middle)],
        power_after(after) == Some(true),
        fan_after(after) == Some(FanSpeed::Middle),
{
    let verdict = crate::dryer::regulator::verdict_on(target, session.latched, temperature);
    assert(verdict.commands() =~= seq![Actuation::PowerOn, Actuation::Fan(FanSpeed::Middle)]);
    lemma_relay_then_fan(before, true, FanSpeed::Middle);
}

/// A tick that reads over the upper bound, and whose commands are all
/// acknowledged, reports "cooling" and leaves the relay off and the fan at
/// its maximum, latched or not.
pub proof fn law_cooling_switches_off(
    before: Seq<Actuation>,
    after: Seq<Actuation>,
    target: u16,
    session: SessionView,
    temperature: u16,
    state: State,
)
    requires
        temperature > crate::dryer::regulator::high_bound(target),
        responded(before, after, target, session, Ok(temperature), Ok(Some(state))),
    ensures
        state@ == (StateView { active: true, temperature, action: "cooling"@ }),
        power_after(after) == Some(false),
        fan_after(after) == Some(FanSpeed::Max),
{
    crate::dryer::regulator::law_cooling_above_band(target, session.latched, temperature);
    let earlier = before + (if session.latched {
        Action::Dry.commands()
    } else {
        Seq::empty()
    });
    assert(after =~= earlier + seq![Actuation::PowerOff, Actuation::Fan(FanSpeed::Max)]);
    lemma_relay_then_fan(earlier, false, FanSpeed::Max);
}

/// Stopping twice is stopping once: where both stops are acknowledged, the
/// relay and the fan are off after the first and still off after the second.
pub proof fn law_stop_idempotent(
    before: Seq<Actuation>,
    once: Seq<Actuation>,
    twice: Seq<Actuation>,
)
    requires
        ran(before, once, stop_commands(), Ok(())),
        ran(once, twice, stop_commands(), Ok(())),
    ensures
        power_after(once) == Some(false),
        fan_after(once) == Some(FanSpeed::Off),
        power_after(twice) == power_after(once),
        fan_after(twice) == fan_after(once),
{
    lemma_relay_then_fan(before, false, FanSpeed::Off);
    lemma_relay_then_fan(once, false, FanSpeed::Off);
}

/// A stop that the relay refuses fails with the error of a power-off, whose
/// words begin with "power off: " and go on with what the relay said; a
/// stop that fails after the relay took its command fails with the fan's
/// error.
pub proof fn law_refused_stop_says_which(
    before: Seq<Actuation>,
    after: Seq<Actuation>,
    e: CycleError,
)
    requires
        ran(before, after, stop_commands(), Err(e)),
    ensures
        after == before || after == before.push(Actuation::PowerOff),
        after == before ==> e is PowerOff && "power off: "@.is_prefix_of(e.message_spec()),
        after != before ==> e is Fan,
{
    let k = choose|k: int|
        0 <= k < stop_commands().len() && after == before + #[trigger] stop_commands().take(k)
            && refused(stop_commands()[k], e);
    if k == 0 {
        assert(after =~= before);
        assert(e.message_spec().subrange(0, "power off: "@.len() as int) =~= "power off: "@);
    } else {
        assert(after =~= before.push(Actuation::PowerOff));
        assert(after.len() != before.len());
    }
}

/// In the same way every refusal of the relay says which way the relay was
/// to go: the words of a refused power-on begin with "power on: ".
pub proof fn law_refusal_in_words(e: CycleError)
    ensures
        e is PowerOn ==> "power on: "@.is_prefix_of(e.message_spec()),
        e is PowerOff ==> "power off: "@.is_prefix_of(e.message_spec()),
{
    if e is PowerOn {
        assert(e.message_spec().subrange(0, "power on: "@.len() as int) =~= "power on: "@);
    }
    if e is PowerOff {
        assert(e.message_spec().subrange(0, "power off: "@.len() as int) =~= "power off: "@);
    }
}

} // verus!
