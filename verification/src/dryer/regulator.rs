//! The thermal rule of a dry cycle.
//!
//! Each tick the regulator looks at one sensor reading and at the latch it
//! keeps between ticks, and decides which of its three rules fire. The rules
//! are tried in a fixed order (heat, dry, cooling) and a later rule actuates
//! after an earlier one; the latch is released last. Nothing here touches an
//! actuator: a verdict only names what has to be done.

use crate::dryer::heater::FanSpeed;
use crate::dryer::heater::SensorError;
use vstd::prelude::*;

verus! {

/// Degrees under the target at which a latched cycle falls back to heating.
pub const RELEASE_MARGIN: u16 = 5;

/// Degrees over the target beyond which the drum is cooled.
pub const COOLING_MARGIN: u16 = 10;

/// The number of failed reads in a row that a cycle still tolerates.
pub const MAX_FAILED_READS: u32 = 30;

/// What a tick reports as the thing it did last.
#[derive(Clone, Copy, Debug, PartialEq, Eq, Structural)]
pub enum Action {
    Heat,
    Dry,
    Cooling,
    /// No rule fired: the reading sat exactly on the upper bound.
    Idle,
}

/// One command to an actuator.
#[derive(Clone, Copy, Debug, PartialEq, Eq, Structural)]
pub enum Actuation {
    PowerOn,
    PowerOff,
    Fan(FanSpeed),
}

/// Why a cycle ended before its time. An actuator's refusal carries what the
/// actuator said of it.
#[derive(Clone, Debug, PartialEq, Eq)]
pub enum CycleError {
    /// More reads failed in a row than a cycle tolerates.
    TooManyFailedReads,
    /// The power relay refused to switch on.
    PowerOn(String),
    /// The power relay refused to switch off.
    PowerOff(String),
    /// The fan refused a level.
    Fan(String),
    /// Nobody listens for state reports any more.
    StateChannelClosed,
}

impl CycleError {
    /// The error in words. A refusal of the relay says which way the relay
    /// was to go and then what the relay said; a refusal of the fan is what
    /// the fan said.
    pub open spec fn message_spec(self) -> Seq<char> {
        match self {
            CycleError::TooManyFailedReads => "too many failed temperature requests"@,
            CycleError::PowerOn(said) => "power on: "@ + said@,
            CycleError::PowerOff(said) => "power off: "@ + said@,
            CycleError::Fan(said) => said@,
            CycleError::StateChannelClosed => "sending on a disconnected channel"@,
        }
    }

    pub fn message(&self) -> (words: String)
        ensures
            words@ == self.message_spec(),
    {
        match self {
            CycleError::TooManyFailedReads => "too many failed temperature requests".to_owned(),
            CycleError::PowerOn(said) => "power on: ".to_owned().concat(said.as_str()),
            CycleError::PowerOff(said) => "power off: ".to_owned().concat(said.as_str()),
            CycleError::Fan(said) => said.clone(),
            CycleError::StateChannelClosed => "sending on a disconnected channel".to_owned(),
        }
    }
}

/// The lower bound of the band: under it a latched cycle heats again.
pub open spec fn low_bound(target: u16) -> int {
    target - RELEASE_MARGIN
}

/// The upper bound of the band: over it the drum is cooled.
pub open spec fn high_bound(target: u16) -> int {
    target + COOLING_MARGIN
}

/// The heat rule: under the target and not latched.
pub open spec fn heat_due(target: u16, latched: bool, temperature: u16) -> bool {
    temperature < target && !latched
}

/// The dry rule: inside the band from the target up, or latched.
pub open spec fn dry_due(target: u16, latched: bool, temperature: u16) -> bool {
    (target <= temperature && temperature < high_bound(target)) || latched
}

/// The cooling rule: over the upper bound.
pub open spec fn cooling_due(target: u16, temperature: u16) -> bool {
    temperature > high_bound(target)
}

/// The latch after a tick: set by the dry rule, cleared by the cooling rule,
/// and released at the end where the reading is under the lower bound.
pub open spec fn latch_after(target: u16, latched: bool, temperature: u16) -> bool {
    dry_due(target, latched, temperature) && !cooling_due(target, temperature) && !(temperature
        < low_bound(target))
}

/// The rules that fired in one tick.
#[derive(Clone, Copy, Debug, PartialEq, Eq, Structural)]
pub struct Verdict {
    pub heat: bool,
    pub dry: bool,
    pub cooling: bool,
}

/// The verdict on one reading.
pub open spec fn verdict_on(target: u16, latched: bool, temperature: u16) -> Verdict {
    Verdict {
        heat: heat_due(target, latched, temperature),
        dry: dry_due(target, latched, temperature),
        cooling: cooling_due(target, temperature),
    }
}

impl Action {
    /// The word under which the action is reported.
    pub open spec fn label_spec(self) -> Seq<char> {
        match self {
            Action::Heat => "heat"@,
            Action::Dry => "dry"@,
            Action::Cooling => "cooling"@,
            Action::Idle => ""@,
        }
    }

    /// The commands that carry the action out, in the order they are given.
    pub open spec fn commands(self) -> Seq<Actuation> {
        match self {
            Action::Heat => seq![Actuation::PowerOn, Actuation::Fan(FanSpeed::Low)],
            Action::Dry => seq![Actuation::PowerOn, Actuation::Fan(FanSpeed::Middle)],
            Action::Cooling => seq![Actuation::PowerOff, Actuation::Fan(FanSpeed::Max)],
            Action::Idle => Seq::empty(),
        }
    }

    pub fn label(&self) -> (word: &'static str)
        ensures
            word@ == self.label_spec(),
    {
        match self {
            Action::Heat => "heat",
            Action::Dry => "dry",
            Action::Cooling => "cooling",
            Action::Idle => "",
        }
    }
}

impl Verdict {
    /// The action reported for the tick: that of the last rule that fired.
    pub open spec fn action_spec(self) -> Action {
        if self.cooling {
            Action::Cooling
        } else if self.dry {
            Action::Dry
        } else if self.heat {
            Action::Heat
        } else {
            Action::Idle
        }
    }

    /// Every command of the tick, rule after rule.
    pub open spec fn commands(self) -> Seq<Actuation> {
        (if self.heat {
            Action::Heat.commands()
        } else {
            Seq::empty()
        }) + (if self.dry {
            Action::Dry.commands()
        } else {
            Seq::empty()
        }) + (if self.cooling {
            Action::Cooling.commands()
        } else {
            Seq::empty()
        })
    }

    pub fn action(&self) -> (action: Action)
        ensures
            action == self.action_spec(),
    {
        if self.cooling {
            Action::Cooling
        } else if self.dry {
            Action::Dry
        } else if self.heat {
            Action::Heat
        } else {
            Action::Idle
        }
    }
}

/// Decides which rules fire for a reading.
pub fn decide(target: u16, latched: bool, temperature: u16) -> (verdict: Verdict)
    ensures
        verdict == verdict_on(target, latched, temperature),
{
    let high: u32 = target as u32 + COOLING_MARGIN as u32;
    let reading: u32 = temperature as u32;
    Verdict {
        heat: temperature < target && !latched,
        dry: (target <= temperature && reading < high) || latched,
        cooling: reading > high,
    }
}

/// What the regulator remembers from tick to tick within one cycle.
pub struct RegulatorSession {
    consecutive_failures: u64,
    target_reached: bool,
    failure_limit: u32,
}

/// A session as plain values.
pub struct SessionView {
    /// Failed reads since the last good one.
    pub failures: nat,
    /// Whether the dry band has been reached and not left since.
    pub latched: bool,
    /// The number of failed reads in a row that the cycle tolerates.
    pub limit: nat,
}

/// The count of failed reads after one more: it stops one past the limit.
pub open spec fn failures_after_miss(failures: nat, limit: nat) -> nat {
    if failures <= limit {
        failures + 1
    } else {
        failures
    }
}

/// The session after one read.
pub open spec fn session_after(
    session: SessionView,
    target: u16,
    reading: Result<u16, SensorError>,
) -> SessionView {
    match reading {
        Ok(temperature) => SessionView {
            failures: 0,
            latched: latch_after(target, session.latched, temperature),
            limit: session.limit,
        },
        Err(_) => SessionView {
            failures: failures_after_miss(session.failures, session.limit),
            latched: session.latched,
            limit: session.limit,
        },
    }
}

/// What one read asks for: a verdict to carry out, nothing, or the end of
/// the cycle.
pub open spec fn evaluation(
    session: SessionView,
    target: u16,
    reading: Result<u16, SensorError>,
) -> Result<Option<Verdict>, CycleError> {
    match reading {
        Ok(temperature) => Ok(Some(verdict_on(target, session.latched, temperature))),
        Err(_) => if failures_after_miss(session.failures, session.limit) > session.limit {
            Err(CycleError::TooManyFailedReads)
        } else {
            Ok(None)
        },
    }
}

impl View for RegulatorSession {
    type V = SessionView;

    closed spec fn view(&self) -> SessionView {
        SessionView {
            failures: self.consecutive_failures as nat,
            latched: self.target_reached,
            limit: self.failure_limit as nat,
        }
    }
}

impl RegulatorSession {
    #[verifier::type_invariant]
    spec fn within_limit(&self) -> bool {
        self.consecutive_failures <= self.failure_limit + 1
    }

    /// A session as every cycle starts it: no failure counted, not latched.
    /// It tolerates `MAX_FAILED_READS` failed reads in a row.
    pub fn new() -> (session: Self)
        ensures
            session@ == (SessionView {
                failures: 0,
                latched: false,
                limit: MAX_FAILED_READS as nat,
            }),
    {
        RegulatorSession {
            consecutive_failures: 0,
            target_reached: false,
            failure_limit: MAX_FAILED_READS,
        }
    }

    /// A fresh session that tolerates `limit` failed reads in a row.
    pub fn tolerating(limit: u32) -> (session: Self)
        ensures
            session@ == (SessionView { failures: 0, latched: false, limit: limit as nat }),
    {
        RegulatorSession { consecutive_failures: 0, target_reached: false, failure_limit: limit }
    }

    pub fn consecutive_failures(&self) -> (n: u64)
        ensures
            n == self@.failures,
            n <= self@.limit + 1,
    {
        proof {
            use_type_invariant(self);
        }
        self.consecutive_failures
    }

    pub fn target_reached(&self) -> (latched: bool)
        ensures
            latched == self@.latched,
    {
        self.target_reached
    }

    pub fn failure_limit(&self) -> (limit: u32)
        ensures
            limit == self@.limit,
    {
        self.failure_limit
    }

    /// Takes in the outcome of one sensor read.
    ///
    /// A failed read is counted and asks for nothing; the read that brings
    /// the count over the session's limit ends the cycle. A good read clears
    /// the count, moves the latch and yields the verdict.
    pub fn evaluate(&mut self, target: u16, reading: Result<u16, SensorError>) -> (outcome: Result<
        Option<Verdict>,
        CycleError,
    >)
        ensures
            final(self)@ == session_after(old(self)@, target, reading),
            outcome == evaluation(old(self)@, target, reading),
    {
        proof {
            use_type_invariant(&*self);
        }
        match reading {
            Ok(temperature) => {
                let verdict = decide(target, self.target_reached, temperature);
                let released = temperature as u32 + (RELEASE_MARGIN as u32) < target as u32;
                self.consecutive_failures = 0;
                self.target_reached = verdict.dry && !verdict.cooling && !released;
                Ok(Some(verdict))
            },
            Err(_) => {
                if self.consecutive_failures <= self.failure_limit as u64 {
                    self.consecutive_failures = self.consecutive_failures + 1;
                }
                if self.consecutive_failures > self.failure_limit as u64 {
                    Err(CycleError::TooManyFailedReads)
                } else {
                    Ok(None)
                }
            },
        }
    }
}

/// The session after `n` failed reads in a row.
pub open spec fn after_failed_reads(session: SessionView, target: u16, n: nat) -> SessionView
    decreases n,
{
    if n == 0 {
        session
    } else {
        session_after(after_failed_reads(session, target, (n - 1) as nat), target, Err(SensorError))
    }
}

/// Under the target and not latched, a tick heats: the relay is switched on
/// and the fan runs low, and nothing else is commanded.
pub proof fn law_heat_below_target(target: u16, temperature: u16)
    requires
        temperature < target,
    ensures
        verdict_on(target, false, temperature).action_spec() == Action::Heat,
        verdict_on(target, false, temperature).commands() == seq![
            Actuation::PowerOn,
            Actuation::Fan(FanSpeed::Low),
        ],
        !latch_after(target, false, temperature),
{
    assert(verdict_on(target, false, temperature).commands() =~= seq![
        Actuation::PowerOn,
        Actuation::Fan(FanSpeed::Low),
    ]);
}

/// From the target up to the upper bound a tick dries and sets the latch,
/// whatever the latch was; and a latched cycle goes on drying, latch kept,
/// when a later reading falls under the target but not under the lower bound.
pub proof fn law_dry_band_latches(target: u16, latched: bool, temperature: u16, later: u16)
    requires
        target <= temperature < high_bound(target),
        low_bound(target) <= later < target,
    ensures
        verdict_on(target, latched, temperature).action_spec() == Action::Dry,
        latch_after(target, latched, temperature),
        verdict_on(target, true, later).action_spec() == Action::Dry,
        latch_after(target, true, later),
{
}

/// Over the upper bound a tick cools, whatever the latch was: the last two
/// commands switch the relay off and run the fan at its maximum, and the
/// latch is clear afterwards.
pub proof fn law_cooling_above_band(target: u16, latched: bool, temperature: u16)
    requires
        temperature > high_bound(target),
    ensures
        verdict_on(target, latched, temperature).action_spec() == Action::Cooling,
        verdict_on(target, latched, temperature).commands() == (if latched {
            Action::Dry.commands()
        } else {
            Seq::empty()
        }) + seq![Actuation::PowerOff, Actuation::Fan(FanSpeed::Max)],
        !latch_after(target, latched, temperature),
{
    assert(verdict_on(target, latched, temperature).commands() =~= (if latched {
        Action::Dry.commands()
    } else {
        Seq::empty()
    }) + seq![Actuation::PowerOff, Actuation::Fan(FanSpeed::Max)]);
}

/// A latched cycle whose reading falls under the lower bound lets go of the
/// latch, so that the next tick heats on any reading under the target.
pub proof fn law_latch_release(target: u16, temperature: u16, next: u16)
    requires
        temperature < low_bound(target),
        next < target,
    ensures
        !latch_after(target, true, temperature),
        verdict_on(target, latch_after(target, true, temperature), next).action_spec()
            == Action::Heat,
{
}

/// The rules never heat and dry in one tick, and the reported action is
/// that of the last rule that fired.
pub proof fn law_rule_order(target: u16, latched: bool, temperature: u16)
    ensures
        !(heat_due(target, latched, temperature) && dry_due(target, latched, temperature)),
        !(heat_due(target, latched, temperature) && cooling_due(target, temperature)),
        cooling_due(target, temperature) && dry_due(target, latched, temperature) ==> latched,
        low_bound(target) < target < high_bound(target),
{
}

/// Failed reads in a row, counted from a good read, end the cycle with the
/// one that brings the count over the limit and not before: after `n` of
/// them the next failed read is fatal exactly when `n` has reached the
/// limit. The latch is not touched meanwhile, and a good read at any point
/// brings the count back to zero.
pub proof fn law_failure_escalation(session: SessionView, target: u16, n: nat, temperature: u16)
    requires
        session.failures == 0,
    ensures
        n <= session.limit ==> after_failed_reads(session, target, n).failures == n,
        n > session.limit ==> after_failed_reads(session, target, n).failures == session.limit + 1,
        after_failed_reads(session, target, n).latched == session.latched,
        after_failed_reads(session, target, n).limit == session.limit,
        evaluation(after_failed_reads(session, target, n), target, Err(SensorError)) == (if n
            >= session.limit {
            Err::<Option<Verdict>, CycleError>(CycleError::TooManyFailedReads)
        } else {
            Ok::<Option<Verdict>, CycleError>(None)
        }),
        session_after(after_failed_reads(session, target, n), target, Ok(temperature)).failures
            == 0,
    decreases n,
{
    if n > 0 {
        law_failure_escalation(session, target, (n - 1) as nat, temperature);
    }
}

/// With the limit that a session has unless told otherwise, thirty failed
/// reads in a row leave the cycle running and the thirty-first ends it.
pub proof fn law_thirty_first_failure_is_fatal(latched: bool, target: u16)
    ensures
        ({
            let fresh = SessionView { failures: 0, latched, limit: MAX_FAILED_READS as nat };
            &&& forall|n: nat|
                n < 30 ==> #[trigger] evaluation(
                    after_failed_reads(fresh, target, n),
                    target,
                    Err(SensorError),
                ) == Ok::<Option<Verdict>, CycleError>(None)
            &&& evaluation(after_failed_reads(fresh, target, 30), target, Err(SensorError))
                == Err::<Option<Verdict>, CycleError>(CycleError::TooManyFailedReads)
        }),
{
    let fresh = SessionView { failures: 0, latched, limit: MAX_FAILED_READS as nat };
    assert forall|n: nat| n < 30 implies #[trigger] evaluation(
        after_failed_reads(fresh, target, n),
        target,
        Err(SensorError),
    ) == Ok::<Option<Verdict>, CycleError>(None) by {
        law_failure_escalation(fresh, target, n, 0);
    }
    law_failure_escalation(fresh, target, 30, 0);
}

/// The latch after a tick is what the rules make of it one after the other:
/// the dry rule sets it, the cooling rule clears it, and at the end a latch
/// that is set is released where the reading is under the lower bound.
pub proof fn law_latch_follows_the_rules(target: u16, latched: bool, temperature: u16)
    ensures
        latch_after(target, latched, temperature) == ({
            let after_dry = if dry_due(target, latched, temperature) {
                true
            } else {
                latched
            };
            let after_cooling = if cooling_due(target, temperature) {
                false
            } else {
                after_dry
            };
            if after_cooling && temperature < low_bound(target) {
                false
            } else {
                after_cooling
            }
        }),
{
}

} // verus!
