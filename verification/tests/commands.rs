use crossbeam_channel::bounded;
use crossbeam_channel::unbounded;
use dryer_control::channel::Delivery;
use dryer_control::coordinator::Coordinator;
use dryer_control::coordinator::CoordinatorError;
use dryer_control::mqtt::Command;
use dryer_control::mqtt::CommandDecodeError;
use dryer_control::mqtt::Credentials;
use dryer_control::mqtt::Mqtt;
use dryer_control::mqtt::SubscribeAttempts;
use dryer_control::mqtt::SubscribeStep;
use dryer_control::mqtt::START_TOPIC;
use dryer_control::mqtt::STOP_TOPIC;
use dryer_control::mqtt::SUBSCRIBE_RETRIES;
use dryer_control::time::timer::SyncTimer;
use dryer_control::wifi::Credentials as WifiCredentials;
use std::time::Duration;

#[test]
fn start_topic_with_a_duration_is_a_start() {
    match Command::decode("/start", Some(90)) {
        Ok(Command::Start(duration)) => assert_eq!(duration, Duration::from_secs(90)),
        other => panic!("not a start: {:?}", other),
    }
    match Command::decode(START_TOPIC, Some(0)) {
        Ok(Command::Start(duration)) => assert_eq!(duration, Duration::ZERO),
        other => panic!("not a start: {:?}", other),
    }
}

#[test]
fn start_topic_without_a_duration_is_malformed() {
    assert!(matches!(
        Command::decode("/start", None),
        Err(CommandDecodeError::MissingDuration)
    ));
}

#[test]
fn stop_topic_is_a_stop_whatever_the_payload() {
    assert!(matches!(Command::decode("/stop", None), Ok(Command::Stop)));
    assert!(matches!(Command::decode(STOP_TOPIC, Some(5)), Ok(Command::Stop)));
}

#[test]
fn other_topics_carry_no_command() {
    for topic in ["", "start", "/start/", "/START", "/state", "/stopp"] {
        assert!(matches!(
            Command::decode(topic, Some(5)),
            Err(CommandDecodeError::UnknownTopic)
        ));
    }
}

#[test]
fn only_the_start_topic_carries_a_duration() {
    assert!(Command::carries_duration("/start"));
    assert!(!Command::carries_duration("/stop"));
    assert!(!Command::carries_duration("start"));
}

#[test]
fn broker_credentials_are_kept_as_given() {
    let mqtt = Mqtt::new(Credentials::new(
        "dryer".to_string(),
        "user".to_string(),
        "secret".to_string(),
        "mqtt://broker:1883".to_string(),
    ));
    assert_eq!(mqtt.credentials().client_id(), "dryer");
    assert_eq!(mqtt.credentials().username(), "user");
    assert_eq!(mqtt.credentials().password(), "secret");
    assert_eq!(mqtt.credentials().url(), "mqtt://broker:1883");
}

#[test]
fn subscription_is_retried_fifty_times() {
    assert_eq!(SUBSCRIBE_RETRIES, 50);
    let mut attempts = SubscribeAttempts::new();
    for _ in 0..50 {
        assert_eq!(attempts.record(false), SubscribeStep::Retry);
    }
    assert_eq!(attempts.record(false), SubscribeStep::GiveUp);
    assert_eq!(attempts.record(false), SubscribeStep::GiveUp);
}

#[test]
fn subscription_that_succeeds_ends_the_retries() {
    let mut attempts = SubscribeAttempts::new();
    assert_eq!(attempts.record(true), SubscribeStep::Subscribed);
    let mut attempts = SubscribeAttempts::new();
    for _ in 0..50 {
        assert_eq!(attempts.record(false), SubscribeStep::Retry);
    }
    assert_eq!(attempts.record(true), SubscribeStep::Subscribed);
}

#[test]
fn network_credentials_are_kept_as_given() {
    let credentials = WifiCredentials::new("home".to_string(), "secret".to_string());
    assert_eq!(credentials.ssid(), "home");
    assert_eq!(credentials.password(), "secret");
    assert!(!credentials.is_open());
    assert!(WifiCredentials::new("cafe".to_string(), String::new()).is_open());
}

#[test]
fn access_point_is_the_first_of_that_name() {
    let credentials = WifiCredentials::new("home".to_string(), "secret".to_string());
    let names = |list: &[&str]| list.iter().map(|name| name.to_string()).collect::<Vec<String>>();
    assert_eq!(credentials.access_point(&names(&["cafe", "home", "work", "home"])), Some(1));
    assert_eq!(credentials.access_point(&names(&["home"])), Some(0));
    assert_eq!(credentials.access_point(&names(&["cafe", "Home", "home "])), None);
    assert_eq!(credentials.access_point(&names(&[])), None);
}

#[test]
fn a_start_is_announced_as_running_and_a_stop_as_not() {
    let asked = Coordinator::announce(&Command::Start(Duration::from_secs(60)));
    assert!(asked.is_active());
    assert_eq!(asked.temperature(), 0);
    assert_eq!(asked.action(), "");
    let ended = Coordinator::announce(&Command::Stop);
    assert!(!ended.is_active());
    assert_eq!(ended.temperature(), 0);
    assert_eq!(ended.action(), "");
}

#[test]
fn a_start_queues_a_timer_of_the_given_length() {
    let (cycles, queue) = unbounded::<SyncTimer>();
    let mut coordinator = Coordinator::new(cycles);
    assert_eq!(coordinator.dispatch(Command::Start(Duration::from_secs(2))), Ok(()));
    let mut timer = queue.try_recv().unwrap();
    assert_eq!(timer.time_left(), Duration::from_secs(2));
    assert!(timer.next_sec());
    assert!(timer.next_sec());
    assert!(!timer.next_sec());
    assert!(queue.try_recv().is_err());
}

#[test]
fn a_stop_cancels_the_running_cycle() {
    let (cycles, queue) = unbounded::<SyncTimer>();
    let mut coordinator = Coordinator::new(cycles);
    coordinator.dispatch(Command::Start(Duration::from_secs(100))).unwrap();
    let mut timer = queue.try_recv().unwrap();
    assert!(timer.next_sec());
    assert_eq!(coordinator.dispatch(Command::Stop), Ok(()));
    assert!(!timer.next_sec());
}

#[test]
fn a_stop_with_nothing_running_is_no_error() {
    let (cycles, _queue) = unbounded::<SyncTimer>();
    let mut coordinator = Coordinator::new(cycles);
    assert_eq!(coordinator.dispatch(Command::Stop), Ok(()));
    coordinator.stop();
}

#[test]
fn a_stale_stop_does_not_reach_the_next_cycle() {
    let (cycles, queue) = unbounded::<SyncTimer>();
    let mut coordinator = Coordinator::new(cycles);
    coordinator.start(Duration::from_secs(1)).unwrap();
    let mut first = queue.try_recv().unwrap();
    assert!(first.next_sec());
    assert!(!first.next_sec());
    drop(first);
    coordinator.stop();
    coordinator.start(Duration::from_secs(2)).unwrap();
    let mut second = queue.try_recv().unwrap();
    assert!(second.next_sec());
    assert!(second.next_sec());
    assert!(!second.next_sec());
}

#[test]
fn a_stop_ends_the_oldest_cycle_and_leaves_the_queued_one() {
    let (cycles, queue) = unbounded::<SyncTimer>();
    let mut coordinator = Coordinator::new(cycles);
    coordinator.start(Duration::from_secs(5)).unwrap();
    coordinator.start(Duration::from_secs(5)).unwrap();
    let mut running = queue.try_recv().unwrap();
    let mut waiting = queue.try_recv().unwrap();
    assert!(running.next_sec());
    coordinator.stop();
    assert!(!running.next_sec());
    assert!(waiting.next_sec());
    coordinator.stop();
    assert!(!waiting.next_sec());
}

#[test]
fn a_start_fails_where_the_control_side_is_gone() {
    let (cycles, queue) = unbounded::<SyncTimer>();
    drop(queue);
    let mut coordinator = Coordinator::new(cycles);
    assert_eq!(
        coordinator.dispatch(Command::Start(Duration::from_secs(1))),
        Err(CoordinatorError::ControlGone)
    );
}

#[test]
fn a_start_fails_where_the_queue_has_no_room() {
    let (cycles, queue) = bounded::<SyncTimer>(1);
    let mut coordinator = Coordinator::new(cycles);
    assert_eq!(coordinator.start(Duration::from_secs(1)), Ok(()));
    assert_eq!(coordinator.start(Duration::from_secs(1)), Err(CoordinatorError::QueueFull));
    assert!(queue.try_recv().is_ok());
    assert_eq!(coordinator.start(Duration::from_secs(1)), Ok(()));
}

#[test]
fn queue_answers_as_outcomes() {
    assert_eq!(Coordinator::accepted(Delivery::Sent), Ok(()));
    assert_eq!(Coordinator::accepted(Delivery::Full), Err(CoordinatorError::QueueFull));
    assert_eq!(Coordinator::accepted(Delivery::Disconnected), Err(CoordinatorError::ControlGone));
}

#[test]
fn a_minted_token_cancels_its_own_timer() {
    let (token, mut timer) = Coordinator::mint(Duration::from_secs(4));
    let (_other, mut untouched) = Coordinator::mint(Duration::from_secs(4));
    assert_eq!(timer.time_left(), Duration::from_secs(4));
    assert!(timer.next_sec());
    token.send(true).unwrap();
    assert!(!timer.next_sec());
    assert!(untouched.next_sec());
}

#[test]
fn a_coordinator_queues_on_the_channel_it_was_given() {
    let (cycles, queue) = unbounded::<SyncTimer>();
    let (elsewhere, other_queue) = unbounded::<SyncTimer>();
    let mut coordinator = Coordinator::new(cycles);
    assert_eq!(coordinator.start(Duration::from_secs(7)), Ok(()));
    assert_eq!(coordinator.start(Duration::from_secs(9)), Ok(()));
    drop(elsewhere);
    assert!(other_queue.try_recv().is_err());
    assert_eq!(queue.try_recv().unwrap().time_left(), Duration::from_secs(7));
    assert_eq!(queue.try_recv().unwrap().time_left(), Duration::from_secs(9));
    assert!(queue.try_recv().is_err());
}

#[test]
fn a_stop_goes_on_past_tokens_that_refuse_until_one_takes_the_signal() {
    assert!(Coordinator::goes_on(false, 2));
    assert!(Coordinator::goes_on(false, 1));
    assert!(!Coordinator::goes_on(false, 0));
    assert!(!Coordinator::goes_on(true, 2));
    assert!(!Coordinator::goes_on(true, 0));
}

#[test]
fn a_stop_skips_finished_cycles_and_signals_the_first_that_runs() {
    let (cycles, queue) = unbounded::<SyncTimer>();
    let mut coordinator = Coordinator::new(cycles);
    for _ in 0..4 {
        coordinator.start(Duration::from_secs(5)).unwrap();
    }
    let finished_one = queue.try_recv().unwrap();
    let finished_two = queue.try_recv().unwrap();
    let mut running = queue.try_recv().unwrap();
    let mut waiting = queue.try_recv().unwrap();
    drop(finished_one);
    drop(finished_two);
    coordinator.stop();
    assert!(!running.next_sec());
    assert!(waiting.next_sec());
    // The signal went to one cycle only, and its token is spent.
    assert!(running.next_sec());
    coordinator.stop();
    assert!(!waiting.next_sec());
    assert!(running.next_sec());
}
