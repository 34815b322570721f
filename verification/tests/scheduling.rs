use chrono::NaiveDate;
use chrono::NaiveDateTime;
use dryer_control::schedule::PeriodicJob;
use dryer_control::schedule::Scheduler;
use std::cell::RefCell;
use std::rc::Rc;

type Callback = Box<dyn Fn()>;

fn at(hour: u32, minute: u32) -> NaiveDateTime {
    NaiveDate::from_ymd_opt(2024, 3, 9).unwrap().and_hms_opt(hour, minute, 0).unwrap()
}

fn idle() -> Callback {
    Box::new(|| {})
}

/// A callback that writes `name` into `log` each time it runs.
fn logging(log: &Rc<RefCell<Vec<&'static str>>>, name: &'static str) -> Callback {
    let log = log.clone();
    Box::new(move || log.borrow_mut().push(name))
}

#[test]
fn job_knows_its_hour() {
    let job = PeriodicJob::with_id(7, 6, idle());
    assert_eq!(job.id(), 7);
    assert!(job.time_is_come(6));
    assert!(!job.time_is_come(7));
    assert!(!job.time_is_come(18));
}

#[test]
fn job_runs_its_callback() {
    let log = Rc::new(RefCell::new(Vec::new()));
    let job = PeriodicJob::new(6, logging(&log, "wash"));
    job.run();
    job.run();
    assert_eq!(*log.borrow(), vec!["wash", "wash"]);
}

#[test]
fn new_jobs_get_identifiers_of_their_own() {
    let first = PeriodicJob::new(6, idle());
    let second = PeriodicJob::new(6, idle());
    assert!(first.time_is_come(6));
    assert_ne!(first.id(), second.id());
}

#[test]
fn job_runs_once_while_its_hour_lasts() {
    let jobs = vec![PeriodicJob::with_id(1, 6, idle())];
    let mut scheduler = Scheduler::new();
    assert_eq!(scheduler.due(&jobs, 5), Vec::<usize>::new());
    assert_eq!(scheduler.due(&jobs, 6), vec![0]);
    assert_eq!(scheduler.due(&jobs, 6), Vec::<usize>::new());
    assert_eq!(scheduler.due(&jobs, 6), Vec::<usize>::new());
}

#[test]
fn job_runs_again_when_its_hour_comes_back() {
    let jobs = vec![PeriodicJob::with_id(1, 6, idle())];
    let mut scheduler = Scheduler::new();
    assert_eq!(scheduler.due(&jobs, 6), vec![0]);
    assert_eq!(scheduler.due(&jobs, 7), Vec::<usize>::new());
    assert_eq!(scheduler.due(&jobs, 6), vec![0]);
}

#[test]
fn jobs_are_picked_in_their_order() {
    let jobs = vec![
        PeriodicJob::with_id(1, 6, idle()),
        PeriodicJob::with_id(2, 9, idle()),
        PeriodicJob::with_id(3, 6, idle()),
    ];
    let mut scheduler = Scheduler::new();
    assert_eq!(scheduler.due(&jobs, 6), vec![0, 2]);
    assert_eq!(scheduler.due(&jobs, 9), vec![1]);
    assert_eq!(scheduler.due(&jobs, 9), Vec::<usize>::new());
    assert_eq!(scheduler.due(&jobs, 6), vec![0, 2]);
}

#[test]
fn jobs_that_share_an_identifier_share_their_record() {
    let jobs = vec![PeriodicJob::with_id(1, 6, idle()), PeriodicJob::with_id(1, 6, idle())];
    let mut scheduler = Scheduler::new();
    assert_eq!(scheduler.due(&jobs, 6), vec![0]);
}

#[test]
fn due_jobs_are_run_in_their_order() {
    let log = Rc::new(RefCell::new(Vec::new()));
    let jobs = vec![
        PeriodicJob::with_id(1, 6, logging(&log, "first")),
        PeriodicJob::with_id(2, 9, logging(&log, "second")),
        PeriodicJob::with_id(3, 6, logging(&log, "third")),
    ];
    let mut scheduler = Scheduler::new();
    assert_eq!(scheduler.run_due(&jobs, 6), vec![0, 2]);
    assert_eq!(*log.borrow(), vec!["first", "third"]);
    assert_eq!(scheduler.run_due(&jobs, 6), Vec::<usize>::new());
    assert_eq!(scheduler.run_due(&jobs, 9), vec![1]);
    assert_eq!(*log.borrow(), vec!["first", "third", "second"]);
}

#[test]
fn picking_jobs_does_not_run_them() {
    let log = Rc::new(RefCell::new(Vec::new()));
    let jobs = vec![PeriodicJob::with_id(1, 6, logging(&log, "first"))];
    let mut scheduler = Scheduler::new();
    assert_eq!(scheduler.due(&jobs, 6), vec![0]);
    assert!(log.borrow().is_empty());
}

#[test]
fn tick_goes_by_the_hour_of_the_moment() {
    let log = Rc::new(RefCell::new(Vec::new()));
    let jobs = vec![
        PeriodicJob::with_id(1, 6, logging(&log, "morning")),
        PeriodicJob::with_id(2, 23, logging(&log, "night")),
    ];
    let mut scheduler = Scheduler::new();
    assert_eq!(scheduler.tick(&jobs, &at(5, 59)), Vec::<usize>::new());
    assert_eq!(scheduler.tick(&jobs, &at(6, 0)), vec![0]);
    assert_eq!(scheduler.tick(&jobs, &at(6, 59)), Vec::<usize>::new());
    assert_eq!(scheduler.tick(&jobs, &at(23, 6)), vec![1]);
    assert_eq!(scheduler.tick(&jobs, &at(0, 6)), Vec::<usize>::new());
    assert_eq!(*log.borrow(), vec!["morning", "night"]);
}

#[test]
fn no_jobs_nothing_to_run() {
    let mut scheduler = Scheduler::new();
    let jobs: Vec<PeriodicJob<Callback>> = Vec::new();
    assert_eq!(scheduler.due(&jobs, 6), Vec::<usize>::new());
    assert_eq!(scheduler.run_due(&jobs, 6), Vec::<usize>::new());
}
