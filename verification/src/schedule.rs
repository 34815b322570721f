//! Jobs that run once a day, at a given hour.
//!
//! The scheduler is asked once a second which jobs to run. A job runs when
//! its hour comes and not again while that hour lasts.

use chrono::NaiveDateTime;
use chrono::Timelike;
use std::collections::HashMap;
use uuid::Uuid;
use vstd::prelude::*;

verus! {

broadcast use vstd::std_specs::hash::group_hash_axioms;

/// A date and time of `chrono`, carried as it is.
#[verifier::external_type_specification]
#[verifier::external_body]
pub struct ExNaiveDateTime(NaiveDateTime);

/// The hour of the day through `Timelike::hour`, which gives a number from
/// 0 to 23.
#[verifier::external_body]
fn hour_of(moment: &NaiveDateTime) -> (hour: u32)
    ensures
        hour < 24,
{
    moment.hour()
}

/// A new random identifier through `Uuid::new_v4`, as the number that
/// `Uuid::as_u128` gives for it. Nothing is claimed of it. `Uuid::new_v4`
/// panics where the system has no random bytes to give.
#[verifier::external_body]
fn fresh_id() -> (id: u128) {
    Uuid::new_v4().as_u128()
}

/// A job to run once a day: its hour, and what to call when the hour comes.
pub struct PeriodicJob<F: Fn()> {
    uuid: u128,
    run_at_hour: u32,
    cb: F,
}

/// A job as plain values.
pub struct JobView {
    pub id: u128,
    pub hour: u32,
}

impl<F: Fn()> View for PeriodicJob<F> {
    type V = JobView;

    closed spec fn view(&self) -> JobView {
        JobView { id: self.uuid, hour: self.run_at_hour }
    }
}

impl<F: Fn()> PeriodicJob<F> {
    /// Whether the job's callback may be called.
    pub closed spec fn runnable(&self) -> bool {
        self.cb.requires(())
    }

    /// A job for the given hour, under an identifier of its own.
    pub fn new(run_at_hour: u32, cb: F) -> (job: Self)
        ensures
            job@.hour == run_at_hour,
            job.runnable() == cb.requires(()),
    {
        Self { uuid: fresh_id(), run_at_hour, cb }
    }

    /// A job for the given hour under a given identifier.
    pub fn with_id(id: u128, run_at_hour: u32, cb: F) -> (job: Self)
        ensures
            job@ == (JobView { id, hour: run_at_hour }),
            job.runnable() == cb.requires(()),
    {
        Self { uuid: id, run_at_hour, cb }
    }

    pub fn id(&self) -> (id: u128)
        ensures
            id == self@.id,
    {
        self.uuid
    }

    pub fn time_is_come(&self, current_hour: u32) -> (come: bool)
        ensures
            come == (self@.hour == current_hour),
    {
        self.run_at_hour == current_hour
    }

    /// Calls the job's callback.
    pub fn run(&self)
        requires
            self.runnable(),
    {
        (self.cb)();
    }
}

/// Whether a job runs now: its hour has come, and it has not run since its
/// hour last came.
pub open spec fn runs_now(happened: Map<u128, bool>, job: JobView, hour: u32) -> bool {
    job.hour == hour && !(happened.contains_key(job.id) && happened[job.id])
}

/// What is known of a job after it was looked at: that it has run, while its
/// hour lasts; that it has not, once its hour is over. A job whose hour never
/// came is not known at all.
pub open spec fn noted(happened: Map<u128, bool>, job: JobView, hour: u32) -> Map<u128, bool> {
    if job.hour == hour {
        happened.insert(job.id, true)
    } else if happened.contains_key(job.id) {
        happened.insert(job.id, false)
    } else {
        happened
    }
}

/// One pass over the jobs, from the first to the last: what is known of the
/// jobs afterwards, and the places of the jobs to run, in rising order.
pub open spec fn round(happened: Map<u128, bool>, jobs: Seq<JobView>, hour: u32) -> (
    Map<u128, bool>,
    Seq<usize>,
)
    decreases jobs.len(),
{
    if jobs.len() == 0 {
        (happened, Seq::empty())
    } else {
        let (before, chosen) = round(happened, jobs.drop_last(), hour);
        (
            noted(before, jobs.last(), hour),
            if runs_now(before, jobs.last(), hour) {
                chosen.push((jobs.len() - 1) as usize)
            } else {
                chosen
            },
        )
    }
}

/// The jobs of a list as plain values.
pub open spec fn job_views<F: Fn()>(jobs: Seq<PeriodicJob<F>>) -> Seq<JobView> {
    jobs.map_values(|job: PeriodicJob<F>| job@)
}

/// The identifiers of the jobs at the given places, in the order of the
/// places.
pub open spec fn ids_at(jobs: Seq<JobView>, places: Seq<usize>) -> Seq<u128> {
    Seq::new(places.len(), |i: int| jobs[places[i] as int].id)
}

/// Remembers, job by job, whether it has run since its hour last came. It
/// keeps, as ghost state, the list of the jobs that it has run.
pub struct Scheduler {
    happened: HashMap<u128, bool>,
    started: Ghost<Seq<u128>>,
}

impl Scheduler {
    /// What is known of the jobs.
    pub closed spec fn happened(&self) -> Map<u128, bool> {
        self.happened@
    }

    /// The identifiers of the jobs whose callback the scheduler has called,
    /// oldest first.
    pub closed spec fn started(&self) -> Seq<u128> {
        self.started@
    }

    /// A scheduler that knows of no job and has run none.
    pub fn new() -> (scheduler: Self)
        ensures
            scheduler.happened() == Map::<u128, bool>::empty(),
            scheduler.started() == Seq::<u128>::empty(),
    {
        Self { happened: HashMap::new(), started: Ghost(Seq::empty()) }
    }

    /// Picks the jobs to run at the given hour and takes note of them. What
    /// comes back are their places in `jobs`; none of them is run.
    pub fn due<F: Fn()>(&mut self, jobs: &Vec<PeriodicJob<F>>, hour: u32) -> (chosen: Vec<usize>)
        ensures
            final(self).started() == old(self).started(),
            (final(self).happened(), chosen@) == round(
                old(self).happened(),
                job_views(jobs@),
                hour,
            ),
            forall|i: int| 0 <= i < chosen@.len() ==> (#[trigger] chosen@[i]) < jobs@.len(),
    {
        let ghost views = job_views(jobs@);
        let mut chosen: Vec<usize> = Vec::new();
        let mut at: usize = 0;
        while at < jobs.len()
            invariant
                at <= jobs.len(),
                self.started@ == old(self).started@,
                views == job_views(jobs@),
                (self.happened@, chosen@) == round(old(self).happened@, views.take(at as int), hour),
                forall|i: int| 0 <= i < chosen@.len() ==> (#[trigger] chosen@[i]) < at,
            decreases jobs.len() - at,
        {
            let job = &jobs[at];
            let ghost before = self.happened@;
            proof {
                assert(views.take(at + 1).drop_last() =~= views.take(at as int));
                assert(views.take(at + 1).last() == job@);
            }
            let known = match self.happened.get(&job.uuid) {
                Some(happened) => Some(*happened),
                None => None,
            };
            if job.time_is_come(hour) {
                if known != Some(true) {
                    chosen.push(at);
                    self.happened.insert(job.uuid, true);
                } else {
                    assert(before.insert(job.uuid, true) =~= before);
                }
            } else if known.is_some() {
                self.happened.insert(job.uuid, false);
            }
            at = at + 1;
        }
        proof {
            assert(views.take(jobs.len() as int) =~= views);
        }
        chosen
    }

    /// Runs the jobs that are due at the given hour, in their order, and
    /// says which they were: the callback of each of them is called once,
    /// and that of no other job.
    pub fn run_due<F: Fn()>(&mut self, jobs: &Vec<PeriodicJob<F>>, hour: u32) -> (chosen: Vec<usize>)
        requires
            forall|i: int| 0 <= i < jobs@.len() ==> (#[trigger] jobs@[i]).runnable(),
        ensures
            (final(self).happened(), chosen@) == round(
                old(self).happened(),
                job_views(jobs@),
                hour,
            ),
            final(self).started() == old(self).started() + ids_at(job_views(jobs@), chosen@),
    {
        let chosen = self.due(jobs, hour);
        let ghost views = job_views(jobs@);
        let ghost known = self.happened@;
        let mut next: usize = 0;
        proof {
            assert(self.started@ =~= old(self).started@ + ids_at(views, chosen@.take(0)));
        }
        while next < chosen.len()
            invariant
                next <= chosen.len(),
                views == job_views(jobs@),
                self.happened@ == known,
                self.started@ == old(self).started@ + ids_at(views, chosen@.take(next as int)),
                forall|i: int| 0 <= i < chosen@.len() ==> (#[trigger] chosen@[i]) < jobs@.len(),
                forall|i: int| 0 <= i < jobs@.len() ==> (#[trigger] jobs@[i]).runnable(),
            decreases chosen.len() - next,
        {
            let job = &jobs[chosen[next]];
            job.run();
            proof {
                self.started@ = self.started@.push(job@.id);
                assert(ids_at(views, chosen@.take(next + 1)) =~= ids_at(
                    views,
                    chosen@.take(next as int),
                ).push(job@.id));
            }
            next = next + 1;
        }
        proof {
            assert(chosen@.take(chosen@.len() as int) =~= chosen@);
        }
        chosen
    }

    /// Runs the jobs that are due at the given moment: those due at its
    /// hour.
    pub fn tick<F: Fn()>(&mut self, jobs: &Vec<PeriodicJob<F>>, moment: &NaiveDateTime) -> (chosen:
        Vec<usize>)
        requires
            forall|i: int| 0 <= i < jobs@.len() ==> (#[trigger] jobs@[i]).runnable(),
        ensures
            final(self).started() == old(self).started() + ids_at(job_views(jobs@), chosen@),
            exists|hour: u32|
                hour < 24 && (final(self).happened(), chosen@) == #[trigger] round(
                    old(self).happened(),
                    job_views(jobs@),
                    hour,
                ),
    {
        let hour = hour_of(moment);
        self.run_due(jobs, hour)
    }
}

/// A job runs when its hour comes, does not run again while that hour
/// lasts, and runs again when the hour comes back after any other.
pub proof fn law_once_per_hour(happened: Map<u128, bool>, job: JobView, other: u32)
    requires
        other != job.hour,
    ensures
        !runs_now(noted(happened, job, job.hour), job, job.hour),
        runs_now(noted(noted(happened, job, job.hour), job, other), job, job.hour),
        !runs_now(happened, job, other),
{
}

} // verus!
