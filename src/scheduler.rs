use vstd::prelude::*;
use crate::queue::{
    advance_post, due_rows, push_task_post, NewTask, PeriodicTask, Queue, QueueError, QueueView, Task,
};

verus! {

/// Relies on chrono's `Utc::now` and `DateTime::timestamp_micros`: the current
/// time, in microseconds since the Unix epoch.
#[verifier::external_body]
fn current_time() -> (r: i64) {
    chrono::Utc::now().timestamp_micros()
}

/// What processing one due periodic row does. A row that never fired only gets
/// its first firing scheduled; any other row first pushes `job`, the one-shot
/// task it stands for, and then has its next firing scheduled.
pub open spec fn process_post(
    pre: QueueView,
    task: PeriodicTask,
    job: NewTask,
    now: i64,
    post: QueueView,
    r: Result<Option<Task>, QueueError>,
) -> bool {
    match task.scheduled_at {
        None => exists|u: Result<PeriodicTask, QueueError>|
            #[trigger] advance_post(pre, task, now, post, u) && r == match u {
                Ok(_) => Ok::<Option<Task>, QueueError>(None),
                Err(e) => Err(e),
            },
        Some(_) => exists|mid: QueueView, p: Result<Task, QueueError>|
            #[trigger] push_task_post(pre, job, now, mid, p) && match p {
                Err(e) => post == mid && r == Err::<Option<Task>, QueueError>(e),
                Ok(t) => exists|u: Result<PeriodicTask, QueueError>|
                    #[trigger] advance_post(mid, task, now, post, u) && r == match u {
                        Ok(_) => Ok::<Option<Task>, QueueError>(Some(t)),
                        Err(e) => Err(e),
                    },
            },
    }
}

/// The scan's margin in seconds as the queue takes it, saturated to 64 signed
/// bits.
pub open spec fn margin_of(error_margin_seconds: u64) -> i64 {
    if error_margin_seconds > i64::MAX as u64 {
        i64::MAX
    } else {
        error_margin_seconds as i64
    }
}

/// The due rows were processed in table order, each with the job that it
/// stands for: `states` holds the tables before each row and after the last.
pub open spec fn scan_chain(
    states: Seq<QueueView>,
    due: Seq<PeriodicTask>,
    jobs: Seq<NewTask>,
    results: Seq<Result<Option<Task>, QueueError>>,
    now: i64,
) -> bool {
    &&& states.len() == due.len() + 1
    &&& jobs.len() == due.len()
    &&& results.len() == due.len()
    &&& forall|k: int|
        0 <= k < due.len() ==> #[trigger] process_post(
            states[k],
            due[k],
            jobs[k],
            now,
            states[k + 1],
            results[k],
        )
}

/// The periodic scheduler: it turns due periodic rows into one-shot tasks.
pub struct Scheduler {
    /// Seconds between two scans.
    pub check_period: u64,
    /// How far from a scan a firing may lie and still be due, in seconds.
    pub error_margin_seconds: u64,
    pub queue: Queue,
}

impl Scheduler {
    pub fn new(check_period: u64, error_margin_seconds: u64, queue: Queue) -> (r: Scheduler)
        ensures
            r.check_period == check_period,
            r.error_margin_seconds == error_margin_seconds,
            r.queue@ == queue@,
    {
        Scheduler { check_period, error_margin_seconds, queue }
    }

    /// Processes one due periodic row: schedules its first firing if it never
    /// fired, else pushes `job` and schedules its next firing.
    pub fn process_task(&mut self, task: &PeriodicTask, job: &NewTask, now: i64) -> (r: Result<
        Option<Task>,
        QueueError,
    >)
        requires
            old(self).queue@.wf(),
        ensures
            final(self).queue@.wf(),
            final(self).check_period == old(self).check_period,
            final(self).error_margin_seconds == old(self).error_margin_seconds,
            process_post(old(self).queue@, *task, *job, now, final(self).queue@, r),
    {
        match task.scheduled_at {
            None => match self.queue.schedule_next_task_execution(task, now) {
                Ok(_) => Ok(None),
                Err(e) => Err(e),
            },
            Some(_) => {
                let ghost pre = self.queue@;
                let pushed = self.queue.push_task(job, now);
                let ghost mid = self.queue@;
                assert(push_task_post(pre, *job, now, mid, pushed));
                match pushed {
                    Err(e) => Err(e),
                    Ok(t) => match self.queue.schedule_next_task_execution(task, now) {
                        Ok(_) => Ok(Some(t)),
                        Err(e) => Err(e),
                    },
                }
            },
        }
    }

    /// One scan at `now`: every periodic row that is due is processed in table
    /// order, with the job that `job_of` reads from it; one result per due row.
    pub fn schedule_at<F: Fn(&PeriodicTask) -> NewTask>(&mut self, job_of: &F, now: i64) -> (r: Vec<
        Result<Option<Task>, QueueError>,
    >)
        requires
            old(self).queue@.wf(),
            forall|t: PeriodicTask| job_of.requires((&t,)),
        ensures
            final(self).queue@.wf(),
            final(self).check_period == old(self).check_period,
            final(self).error_margin_seconds == old(self).error_margin_seconds,
            exists|states: Seq<QueueView>, jobs: Seq<NewTask>|
                #[trigger] scan_chain(
                    states,
                    due_rows(old(self).queue@.periodic_tasks, now, margin_of(old(self).error_margin_seconds)),
                    jobs,
                    r@,
                    now,
                ) && states[0] == old(self).queue@ && states.last() == final(self).queue@ && (forall|
                    k: int,
                |
                    0 <= k < jobs.len() ==> job_of.ensures(
                        (
                            &due_rows(
                                old(self).queue@.periodic_tasks,
                                now,
                                margin_of(old(self).error_margin_seconds),
                            )[k],
                        ),
                        #[trigger] jobs[k],
                    )),
    {
        let margin: i64 = if self.error_margin_seconds > i64::MAX as u64 {
            i64::MAX
        } else {
            self.error_margin_seconds as i64
        };
        assert(margin == margin_of(self.error_margin_seconds));
        let ghost pre = self.queue@;
        let due = match self.queue.fetch_periodic_tasks(margin, now) {
            Some(v) => v,
            None => Vec::new(),
        };
        assert(due@ == due_rows(pre.periodic_tasks, now, margin));
        let mut results: Vec<Result<Option<Task>, QueueError>> = Vec::new();
        let ghost mut states: Seq<QueueView> = seq![pre];
        let ghost mut jobs: Seq<NewTask> = Seq::empty();
        let mut k: usize = 0;
        while k < due.len()
            invariant
                self.queue@.wf(),
                self.check_period == old(self).check_period,
                self.error_margin_seconds == old(self).error_margin_seconds,
                forall|t: PeriodicTask| job_of.requires((&t,)),
                k <= due@.len(),
                states.len() == k + 1,
                states[0] == pre,
                states.last() == self.queue@,
                jobs.len() == k,
                results@.len() == k,
                forall|m: int|
                    0 <= m < k ==> #[trigger] process_post(
                        states[m],
                        due@[m],
                        jobs[m],
                        now,
                        states[m + 1],
                        results@[m],
                    ),
                forall|m: int| 0 <= m < k ==> job_of.ensures((&due@[m],), #[trigger] jobs[m]),
            decreases due@.len() - k,
        {
            let job = job_of(&due[k]);
            let res = self.process_task(&due[k], &job, now);
            proof {
                states = states.push(self.queue@);
                jobs = jobs.push(job);
            }
            results.push(res);
            k = k + 1;
        }
        assert(scan_chain(states, due@, jobs, results@, now));
        results
    }

    /// One scan at the current time.
    pub fn schedule<F: Fn(&PeriodicTask) -> NewTask>(&mut self, job_of: &F) -> (r: Vec<
        Result<Option<Task>, QueueError>,
    >)
        requires
            old(self).queue@.wf(),
            forall|t: PeriodicTask| job_of.requires((&t,)),
        ensures
            final(self).queue@.wf(),
            final(self).check_period == old(self).check_period,
            final(self).error_margin_seconds == old(self).error_margin_seconds,
            exists|now: i64, states: Seq<QueueView>, jobs: Seq<NewTask>|
                #[trigger] scan_chain(
                    states,
                    due_rows(old(self).queue@.periodic_tasks, now, margin_of(old(self).error_margin_seconds)),
                    jobs,
                    r@,
                    now,
                ) && states[0] == old(self).queue@ && states.last() == final(self).queue@,
    {
        let now = current_time();
        self.schedule_at(job_of, now)
    }
}

} // verus!
