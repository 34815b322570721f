use dryer_control::dryer::heater::SensorError;
use dryer_control::dryer::regulator::decide;
use dryer_control::dryer::regulator::Action;
use dryer_control::dryer::regulator::CycleError;
use dryer_control::dryer::regulator::RegulatorSession;
use dryer_control::dryer::regulator::Verdict;
use dryer_control::dryer::regulator::MAX_FAILED_READS;

fn action_on(session: &mut RegulatorSession, target: u16, temperature: u16) -> Action {
    session
        .evaluate(target, Ok(temperature))
        .expect("a good read never ends the cycle")
        .expect("a good read always gives a verdict")
        .action()
}

#[test]
fn below_target_heats() {
    for temperature in [0u16, 1, 30, 59] {
        let verdict = decide(60, false, temperature);
        assert_eq!(verdict, Verdict { heat: true, dry: false, cooling: false });
        assert_eq!(verdict.action(), Action::Heat);
    }
}

#[test]
fn band_from_target_up_dries_and_latches() {
    for temperature in [60u16, 61, 65, 69] {
        let mut session = RegulatorSession::new();
        assert_eq!(action_on(&mut session, 60, temperature), Action::Dry);
        assert!(session.target_reached());
    }
}

#[test]
fn latch_holds_down_to_the_lower_bound() {
    let mut session = RegulatorSession::new();
    assert_eq!(action_on(&mut session, 60, 62), Action::Dry);
    for temperature in [59u16, 57, 55] {
        assert_eq!(action_on(&mut session, 60, temperature), Action::Dry);
        assert!(session.target_reached());
    }
}

#[test]
fn above_band_cools_and_clears_the_latch() {
    for latched_first in [false, true] {
        let mut session = RegulatorSession::new();
        if latched_first {
            assert_eq!(action_on(&mut session, 60, 60), Action::Dry);
        }
        assert_eq!(action_on(&mut session, 60, 71), Action::Cooling);
        assert!(!session.target_reached());
    }
}

#[test]
fn latched_cooling_runs_the_dry_rule_first() {
    assert_eq!(decide(60, true, 80), Verdict { heat: false, dry: true, cooling: true });
    assert_eq!(decide(60, false, 80), Verdict { heat: false, dry: false, cooling: true });
}

#[test]
fn upper_bound_itself_asks_for_nothing() {
    let mut session = RegulatorSession::new();
    let verdict = session.evaluate(60, Ok(70)).unwrap().unwrap();
    assert_eq!(verdict, Verdict { heat: false, dry: false, cooling: false });
    assert_eq!(verdict.action(), Action::Idle);
    assert_eq!(verdict.action().label(), "");
    assert!(!session.target_reached());
}

#[test]
fn upper_bound_itself_keeps_a_latched_cycle_drying() {
    let mut session = RegulatorSession::new();
    assert_eq!(action_on(&mut session, 60, 60), Action::Dry);
    assert_eq!(action_on(&mut session, 60, 70), Action::Dry);
    assert!(session.target_reached());
}

#[test]
fn latch_release_lets_the_next_tick_heat() {
    let mut session = RegulatorSession::new();
    assert_eq!(action_on(&mut session, 60, 60), Action::Dry);
    // Under the lower bound the tick itself still dries, and lets go.
    assert_eq!(action_on(&mut session, 60, 54), Action::Dry);
    assert!(!session.target_reached());
    assert_eq!(action_on(&mut session, 60, 54), Action::Heat);
    assert!(!session.target_reached());
}

#[test]
fn end_to_end_sequence() {
    let mut session = RegulatorSession::new();
    let readings = [55u16, 61, 58, 75, 54];
    let mut actions = Vec::new();
    let mut latches = Vec::new();
    for reading in readings {
        actions.push(action_on(&mut session, 60, reading).label());
        latches.push(session.target_reached());
    }
    assert_eq!(actions, vec!["heat", "dry", "dry", "cooling", "heat"]);
    assert_eq!(latches, vec![false, true, true, false, false]);
}

#[test]
fn action_labels() {
    assert_eq!(Action::Heat.label(), "heat");
    assert_eq!(Action::Dry.label(), "dry");
    assert_eq!(Action::Cooling.label(), "cooling");
    assert_eq!(Action::Idle.label(), "");
}

#[test]
fn thirty_failed_reads_do_not_abort_and_the_next_does() {
    let mut session = RegulatorSession::new();
    for n in 1..=MAX_FAILED_READS {
        assert_eq!(session.evaluate(60, Err(SensorError)), Ok(None));
        assert_eq!(session.consecutive_failures(), u64::from(n));
    }
    assert_eq!(MAX_FAILED_READS, 30);
    assert_eq!(session.evaluate(60, Err(SensorError)), Err(CycleError::TooManyFailedReads));
    assert_eq!(session.consecutive_failures(), 31);
}

#[test]
fn a_good_read_resets_the_failure_count() {
    let mut session = RegulatorSession::new();
    for _ in 0..30 {
        assert_eq!(session.evaluate(60, Err(SensorError)), Ok(None));
    }
    assert!(session.evaluate(60, Ok(40)).unwrap().is_some());
    assert_eq!(session.consecutive_failures(), 0);
    for _ in 0..30 {
        assert_eq!(session.evaluate(60, Err(SensorError)), Ok(None));
    }
    assert_eq!(session.evaluate(60, Err(SensorError)), Err(CycleError::TooManyFailedReads));
}

#[test]
fn a_failed_read_leaves_the_latch_alone() {
    let mut session = RegulatorSession::new();
    assert_eq!(action_on(&mut session, 60, 65), Action::Dry);
    assert_eq!(session.evaluate(60, Err(SensorError)), Ok(None));
    assert!(session.target_reached());
}

#[test]
fn the_failure_count_stops_one_past_the_limit() {
    let mut session = RegulatorSession::new();
    for _ in 0..40 {
        let _ = session.evaluate(60, Err(SensorError));
    }
    assert_eq!(session.consecutive_failures(), 31);
    assert_eq!(session.evaluate(60, Err(SensorError)), Err(CycleError::TooManyFailedReads));
}

#[test]
fn bounds_do_not_wrap_at_the_ends_of_the_range() {
    // Target 2: the lower bound lies under zero, so no reading releases.
    let mut session = RegulatorSession::new();
    assert_eq!(action_on(&mut session, 2, 2), Action::Dry);
    assert_eq!(action_on(&mut session, 2, 0), Action::Dry);
    assert!(session.target_reached());
    // Target near the top: the upper bound lies over every reading.
    assert_eq!(decide(65530, false, u16::MAX), Verdict { heat: false, dry: true, cooling: false });
    assert_eq!(decide(65530, false, 65529), Verdict { heat: true, dry: false, cooling: false });
}

#[test]
fn a_session_can_be_told_its_limit() {
    let mut session = RegulatorSession::tolerating(2);
    assert_eq!(session.failure_limit(), 2);
    assert_eq!(session.evaluate(60, Err(SensorError)), Ok(None));
    assert_eq!(session.evaluate(60, Err(SensorError)), Ok(None));
    assert_eq!(session.evaluate(60, Err(SensorError)), Err(CycleError::TooManyFailedReads));
    assert_eq!(session.consecutive_failures(), 3);

    let mut strict = RegulatorSession::tolerating(0);
    assert_eq!(strict.evaluate(60, Err(SensorError)), Err(CycleError::TooManyFailedReads));

    assert_eq!(RegulatorSession::new().failure_limit(), 30);
}

#[test]
fn the_largest_limit_is_never_reached() {
    let mut session = RegulatorSession::tolerating(u32::MAX);
    for _ in 0..1000 {
        assert_eq!(session.evaluate(60, Err(SensorError)), Ok(None));
    }
    assert_eq!(session.consecutive_failures(), 1000);
}
