use vstd::prelude::*;
use crate::queue::{
    fetch_and_touch_post, is_next_task, remove_effect, row_effect, type_filter, with_failure,
    with_state, Queue, QueueError, QueueView, Task,
};
use crate::schema::{lifecycle_step, FangTaskState};
use crate::worker_pool::WorkerState;

verus! {

/// What happens to a task row once its job has run.
#[derive(Clone, Copy, Debug, PartialEq, Eq, Structural)]
pub enum RetentionMode {
    /// Finished rows become `Finished`, failed rows become `Failed`.
    KeepAll,
    /// Every row is deleted, whatever the outcome.
    RemoveAll,
    /// Finished rows are deleted, failed rows become `Failed`.
    RemoveFinished,
}

/// Adaptive idle back-off of a worker, in seconds.
#[derive(Clone, Copy, Debug, PartialEq, Eq, Structural)]
pub struct SleepParams {
    pub sleep_period: u64,
    pub max_sleep_period: u64,
    pub min_sleep_period: u64,
    pub sleep_step: u64,
}

/// The smaller of two integers.
pub open spec fn min_int(a: int, b: int) -> int {
    if a <= b { a } else { b }
}

impl SleepParams {
    /// The period that follows an unproductive iteration.
    pub open spec fn increased(self) -> SleepParams {
        SleepParams {
            sleep_period: min_int(
                self.sleep_period + self.sleep_step,
                self.max_sleep_period as int,
            ) as u64,
            ..self
        }
    }

    /// The parameters after `k` unproductive iterations in a row.
    pub open spec fn increased_times(self, k: nat) -> SleepParams
        decreases k,
    {
        if k == 0 {
            self
        } else {
            self.increased_times((k - 1) as nat).increased()
        }
    }

    /// The parameters after a productive iteration.
    pub open spec fn reset(self) -> SleepParams {
        SleepParams { sleep_period: self.min_sleep_period, ..self }
    }

    /// Back to the shortest period, after a productive iteration.
    pub fn maybe_reset_sleep_period(&mut self)
        ensures
            *final(self) == old(self).reset(),
    {
        if self.sleep_period != self.min_sleep_period {
            self.sleep_period = self.min_sleep_period;
        }
    }

    /// One step longer, never past the longest period, after an unproductive
    /// iteration.
    pub fn maybe_increase_sleep_period(&mut self)
        ensures
            *final(self) == old(self).increased(),
    {
        if self.sleep_period >= self.max_sleep_period
            || self.sleep_step >= self.max_sleep_period - self.sleep_period {
            self.sleep_period = self.max_sleep_period;
        } else {
            self.sleep_period = self.sleep_period + self.sleep_step;
        }
    }
}

impl Default for SleepParams {
    /// Five seconds at first and at least, fifteen at most, five more each time.
    fn default() -> (r: SleepParams)
        ensures
            r == (SleepParams {
                sleep_period: 5,
                max_sleep_period: 15,
                min_sleep_period: 5,
                sleep_step: 5,
            }),
    {
        SleepParams { sleep_period: 5, max_sleep_period: 15, min_sleep_period: 5, sleep_step: 5 }
    }
}

/// Starting from the shortest period, `k` unproductive iterations in a row
/// leave the period at `min(min + k * step, max)`, and one productive iteration
/// then brings it back to the shortest.
pub proof fn lemma_back_off(p: SleepParams, k: nat)
    requires
        p.sleep_period == p.min_sleep_period,
        p.min_sleep_period <= p.max_sleep_period,
    ensures
        p.increased_times(k).sleep_period == min_int(
            p.min_sleep_period + k * p.sleep_step,
            p.max_sleep_period as int,
        ),
        p.increased_times(k).reset().sleep_period == p.min_sleep_period,
    decreases k,
{
    lemma_increased_keeps_bounds(p, k);
    if k > 0 {
        lemma_back_off(p, (k - 1) as nat);
        assert(p.min_sleep_period + k * p.sleep_step == p.min_sleep_period + (k - 1) * p.sleep_step
            + p.sleep_step) by (nonlinear_arith);
        assert(p.min_sleep_period + (k - 1) * p.sleep_step >= p.min_sleep_period) by (nonlinear_arith)
            requires k >= 1;
    }
}

/// Unproductive iterations change the period alone.
proof fn lemma_increased_keeps_bounds(p: SleepParams, k: nat)
    ensures
        p.increased_times(k).min_sleep_period == p.min_sleep_period,
        p.increased_times(k).max_sleep_period == p.max_sleep_period,
        p.increased_times(k).sleep_step == p.sleep_step,
    decreases k,
{
    if k > 0 {
        lemma_increased_keeps_bounds(p, (k - 1) as nat);
    }
}

/// The error that a job's `run` reports.
#[derive(Debug)]
pub struct Error {
    pub description: String,
}

/// A job that failed, with the row it ran for.
#[derive(Debug)]
pub struct TaskError(pub Task, pub Error);

/// What becomes of a row after its job ran.
#[derive(Debug)]
pub enum FinalizeAction {
    /// Mark the row `Finished`.
    Finish,
    /// Mark the row `Failed` with this message.
    Fail(String),
    /// Delete the row.
    Remove,
}

/// The retention policy: what becomes of a row, given how its job ended.
pub open spec fn spec_finalize_action(
    mode: RetentionMode,
    result: Result<Task, TaskError>,
) -> FinalizeAction {
    match (mode, result) {
        (RetentionMode::KeepAll, Ok(_)) => FinalizeAction::Finish,
        (RetentionMode::RemoveAll, _) => FinalizeAction::Remove,
        (RetentionMode::RemoveFinished, Ok(_)) => FinalizeAction::Remove,
        (_, Err(e)) => FinalizeAction::Fail(e.1.description),
    }
}

/// The row that a job's result is about.
pub open spec fn result_task(result: Result<Task, TaskError>) -> Task {
    match result {
        Ok(t) => t,
        Err(e) => e.0,
    }
}

/// The job's outcome attached to its row.
pub open spec fn spec_execute(task: Task, outcome: Result<(), Error>) -> Result<Task, TaskError> {
    match outcome {
        Ok(()) => Ok(task),
        Err(e) => Err(TaskError(task, e)),
    }
}

/// What finalizing does to the tables: apply the retention policy to the row.
pub open spec fn finalize_post(
    pre: QueueView,
    action: FinalizeAction,
    id: u128,
    now: i64,
    post: QueueView,
    r: Result<(), QueueError>,
) -> bool {
    match action {
        FinalizeAction::Finish => row_effect(pre, id, FangTaskState::Finished, None, now, post, r is Ok),
        FinalizeAction::Fail(m) => row_effect(pre, id, FangTaskState::Failed, Some(m), now, post, r is Ok),
        FinalizeAction::Remove => remove_effect(pre, id, post) && r is Ok,
    }
}

/// The retention policy: what becomes of a row, given how its job ended.
pub fn finalize_action(mode: RetentionMode, result: &Result<Task, TaskError>) -> (r: FinalizeAction)
    ensures
        r == spec_finalize_action(mode, *result),
{
    match (mode, result) {
        (RetentionMode::KeepAll, Ok(_)) => FinalizeAction::Finish,
        (RetentionMode::RemoveAll, _) => FinalizeAction::Remove,
        (RetentionMode::RemoveFinished, Ok(_)) => FinalizeAction::Remove,
        (_, Err(e)) => FinalizeAction::Fail(e.1.description.clone()),
    }
}

/// How one fetch of the worker loop went.
#[derive(Clone, Copy, Debug, PartialEq, Eq, Structural)]
pub enum FetchOutcome {
    /// A row was claimed and run.
    Claimed,
    /// No row was waiting.
    Empty,
    /// The store failed.
    Failed,
}

/// What the worker loop does next.
#[derive(Clone, Copy, Debug, PartialEq, Eq, Structural)]
pub enum LoopAction {
    /// Return: shutdown was requested.
    Stop,
    /// Fetch again at once.
    Continue,
    /// Sleep this many seconds, then fetch again.
    Sleep(u64),
}

/// One worker: its type filter, its back-off and its retention policy.
pub struct Executor {
    pub task_type: Option<String>,
    pub sleep_params: SleepParams,
    pub retention_mode: RetentionMode,
}

impl Executor {
    /// No type filter, the default back-off, and finished rows removed.
    pub fn new() -> (r: Executor)
        ensures
            r.task_type is None,
            r.sleep_params == (SleepParams {
                sleep_period: 5,
                max_sleep_period: 15,
                min_sleep_period: 5,
                sleep_step: 5,
            }),
            r.retention_mode == RetentionMode::RemoveFinished,
    {
        Executor {
            task_type: None,
            sleep_params: SleepParams::default(),
            retention_mode: RetentionMode::RemoveFinished,
        }
    }

    pub fn set_task_type(&mut self, task_type: String)
        ensures
            *final(self) == (Executor { task_type: Some(task_type), ..*old(self) }),
    {
        self.task_type = Some(task_type);
    }

    pub fn set_sleep_params(&mut self, sleep_params: SleepParams)
        ensures
            *final(self) == (Executor { sleep_params, ..*old(self) }),
    {
        self.sleep_params = sleep_params;
    }

    pub fn set_retention_mode(&mut self, retention_mode: RetentionMode)
        ensures
            *final(self) == (Executor { retention_mode, ..*old(self) }),
    {
        self.retention_mode = retention_mode;
    }

    /// Back to the shortest sleep.
    pub fn maybe_reset_sleep_period(&mut self)
        ensures
            *final(self) == (Executor { sleep_params: old(self).sleep_params.reset(), ..*old(self) }),
    {
        self.sleep_params.maybe_reset_sleep_period();
    }

    /// The seconds to sleep now; the next sleep is one step longer, up to the
    /// longest.
    pub fn sleep(&mut self) -> (r: u64)
        ensures
            r == old(self).sleep_params.sleep_period,
            *final(self) == (Executor { sleep_params: old(self).sleep_params.increased(), ..*old(self) }),
    {
        let period = self.sleep_params.sleep_period;
        self.sleep_params.maybe_increase_sleep_period();
        period
    }

    /// The loop's decision after a fetch: a productive one resets the back-off
    /// and goes on at once; any other sleeps the current period and grows it.
    pub fn after_fetch(&mut self, outcome: FetchOutcome) -> (r: LoopAction)
        ensures
            outcome == FetchOutcome::Claimed ==> r == LoopAction::Continue && *final(self) == (
            Executor { sleep_params: old(self).sleep_params.reset(), ..*old(self) }),
            outcome != FetchOutcome::Claimed ==> r == LoopAction::Sleep(
                old(self).sleep_params.sleep_period,
            ) && *final(self) == (Executor {
                sleep_params: old(self).sleep_params.increased(),
                ..*old(self)
            }),
    {
        match outcome {
            FetchOutcome::Claimed => {
                self.maybe_reset_sleep_period();
                LoopAction::Continue
            },
            _ => LoopAction::Sleep(self.sleep()),
        }
    }

    /// The job's outcome attached to its row.
    pub fn execute_task(&self, task: Task, outcome: Result<(), Error>) -> (r: Result<Task, TaskError>)
        ensures
            r == spec_execute(task, outcome),
    {
        match outcome {
            Ok(()) => Ok(task),
            Err(error) => Err(TaskError(task, error)),
        }
    }

    /// Applies the retention policy to the row that `result` is about.
    pub fn finalize_task(&self, queue: &mut Queue, result: &Result<Task, TaskError>, now: i64) -> (r:
        Result<(), QueueError>)
        requires
            old(queue)@.wf(),
        ensures
            final(queue)@.wf(),
            finalize_post(
                old(queue)@,
                spec_finalize_action(self.retention_mode, *result),
                result_task(*result).id,
                now,
                final(queue)@,
                r,
            ),
    {
        let task = match result {
            Ok(t) => t,
            Err(e) => &e.0,
        };
        match finalize_action(self.retention_mode, result) {
            FinalizeAction::Finish => {
                let u = queue.finish_task(task, now);
                match u {
                    Ok(_) => Ok(()),
                    Err(e) => Err(e),
                }
            },
            FinalizeAction::Fail(message) => {
                let u = queue.fail_task(task, message, now);
                match u {
                    Ok(_) => Ok(()),
                    Err(e) => Err(e),
                }
            },
            FinalizeAction::Remove => {
                let _ = queue.remove_task(task.id);
                Ok(())
            },
        }
    }

    /// Records a job's outcome: the retention policy is applied to its row, and
    /// the outcome is returned with the row. A failure of the store while
    /// finalizing does not change what is returned.
    pub fn run(&self, queue: &mut Queue, task: Task, outcome: Result<(), Error>, now: i64) -> (r: Result<
        Task,
        TaskError,
    >)
        requires
            old(queue)@.wf(),
        ensures
            final(queue)@.wf(),
            r == spec_execute(task, outcome),
            exists|f: Result<(), QueueError>|
                #[trigger] finalize_post(
                    old(queue)@,
                    spec_finalize_action(self.retention_mode, r),
                    task.id,
                    now,
                    final(queue)@,
                    f,
                ),
    {
        let result = self.execute_task(task, outcome);
        let _ = self.finalize_task(queue, &result, now);
        result
    }

    /// One pass of the worker loop on `queue`: stop on shutdown; else claim the
    /// next row of this worker's type, run its job through `runner`, apply the
    /// retention policy, and adjust the back-off.
    pub fn step<F: Fn(&Task) -> Result<(), Error>>(
        &mut self,
        state: WorkerState,
        queue: &mut Queue,
        runner: &F,
        now: i64,
    ) -> (r: LoopAction)
        requires
            old(queue)@.wf(),
            forall|t: Task| runner.requires((&t,)),
        ensures
            final(queue)@.wf(),
            state == WorkerState::Shutdown ==> r == LoopAction::Stop && final(queue)@ == old(queue)@
                && *final(self) == *old(self),
            state == WorkerState::Running ==> exists|c: Result<Option<Task>, QueueError>|
                #[trigger] fetch_and_touch_post(
                    old(queue)@,
                    type_filter(old(self).task_type),
                    now,
                    final(queue)@,
                    c,
                ) && c == Ok::<Option<Task>, QueueError>(None) && r == LoopAction::Sleep(
                    old(self).sleep_params.sleep_period,
                ) && *final(self) == (Executor {
                    sleep_params: old(self).sleep_params.increased(),
                    ..*old(self)
                }) || exists|c: Task, mid: QueueView, o: Result<(), Error>, f: Result<(), QueueError>|
                    #[trigger] fetch_and_touch_post(
                        old(queue)@,
                        type_filter(old(self).task_type),
                        now,
                        mid,
                        Ok(Some(c)),
                    ) && runner.ensures((&c,), o) && #[trigger] finalize_post(
                        mid,
                        spec_finalize_action(old(self).retention_mode, spec_execute(c, o)),
                        c.id,
                        now,
                        final(queue)@,
                        f,
                    ) && r == LoopAction::Continue && *final(self) == (Executor {
                        sleep_params: old(self).sleep_params.reset(),
                        ..*old(self)
                    }),
    {
        if state == WorkerState::Shutdown {
            return LoopAction::Stop;
        }
        let fetched = queue.fetch_and_touch(&self.task_type, now);
        match fetched {
            Ok(Some(task)) => {
                let outcome = runner(&task);
                let _ = self.run(queue, task, outcome, now);
                self.after_fetch(FetchOutcome::Claimed)
            },
            _ => self.after_fetch(FetchOutcome::Empty),
        }
    }
}

/// A row that the executor claims and then finalizes goes through its
/// lifecycle in order: it was `New`, the claim makes it `InProgress`, and
/// afterwards it is `Finished`, `Failed`, or deleted.
pub proof fn lemma_executor_follows_lifecycle(
    q0: QueueView,
    task_type: Option<Seq<char>>,
    now1: i64,
    q1: QueueView,
    t: Task,
    action: FinalizeAction,
    now2: i64,
    q2: QueueView,
    f: Result<(), QueueError>,
)
    requires
        q0.wf(),
        fetch_and_touch_post(q0, task_type, now1, q1, Ok(Some(t))),
        finalize_post(q1, action, t.id, now2, q2, f),
    ensures
        exists|i: int|
            0 <= i < q0.tasks.len() && (#[trigger] q0.tasks[i]).id == t.id && lifecycle_step(
                q0.tasks[i].state,
                t.state,
            ),
        forall|k: int|
            0 <= k < q2.tasks.len() && (#[trigger] q2.tasks[k]).id == t.id ==> lifecycle_step(
                t.state,
                q2.tasks[k].state,
            ),
{
    let i = choose|i: int|
        #[trigger] is_next_task(q0.tasks, i, task_type, Seq::empty()) && t == with_state(
            q0.tasks[i],
            FangTaskState::InProgress,
            now1,
        ) && q1 == (QueueView { tasks: q0.tasks.update(i, t), ..q0 });
    assert(q0.tasks[i].id == t.id);
    assert(q1.tasks[i] == t);
    assert(q1.has_task(t.id));
    assert forall|a: int, b: int| 0 <= a < b < q1.tasks.len() implies (
    #[trigger] q1.tasks[a]).id != (#[trigger] q1.tasks[b]).id by {
        assert(q0.tasks[a].id != q0.tasks[b].id);
    }
    match action {
        FinalizeAction::Remove => {
            let j = choose|j: int|
                0 <= j < q1.tasks.len() && (#[trigger] q1.tasks[j]).id == t.id && q2 == (QueueView {
                    tasks: q1.tasks.remove(j),
                    ..q1
                });
            assert forall|k: int| 0 <= k < q2.tasks.len() implies (#[trigger] q2.tasks[k]).id != t.id by {
                if k < j {
                    assert(q2.tasks[k] == q1.tasks[k]);
                } else {
                    assert(q2.tasks[k] == q1.tasks[k + 1]);
                }
            }
        },
        FinalizeAction::Finish => {
            let j = choose|j: int|
                0 <= j < q1.tasks.len() && (#[trigger] q1.tasks[j]).id == t.id && q2 == (QueueView {
                    tasks: q1.tasks.update(j, with_state(q1.tasks[j], FangTaskState::Finished, now2)),
                    ..q1
                });
            assert(j == i);
            assert forall|k: int|
                0 <= k < q2.tasks.len() && (#[trigger] q2.tasks[k]).id == t.id implies k == j by {
                if k != j {
                    assert(q2.tasks[k] == q1.tasks[k]);
                }
            }
        },
        FinalizeAction::Fail(m) => {
            let j = choose|j: int|
                0 <= j < q1.tasks.len() && (#[trigger] q1.tasks[j]).id == t.id && q2 == (QueueView {
                    tasks: q1.tasks.update(j, with_failure(q1.tasks[j], m, now2)),
                    ..q1
                });
            assert(j == i);
            assert forall|k: int|
                0 <= k < q2.tasks.len() && (#[trigger] q2.tasks[k]).id == t.id implies k == j by {
                if k != j {
                    assert(q2.tasks[k] == q1.tasks[k]);
                }
            }
        },
    }
}

} // verus!
