use vstd::prelude::*;
use crate::executor::{Executor, RetentionMode, SleepParams};

verus! {

/// The run flag that the supervisor shares with its workers.
#[derive(Clone, Copy, Debug, PartialEq, Eq, Structural)]
pub enum WorkerState {
    Running,
    Shutdown,
}

/// What every worker of a pool is configured with; an unset field leaves the
/// executor's default.
#[derive(Clone, Debug)]
pub struct WorkerParams {
    pub retention_mode: Option<RetentionMode>,
    pub sleep_params: Option<SleepParams>,
    pub task_type: Option<String>,
}

impl Default for WorkerParams {
    fn default() -> (r: WorkerParams)
        ensures
            r.retention_mode is None,
            r.sleep_params is None,
            r.task_type is None,
    {
        WorkerParams::new()
    }
}

/// A copy of an optional string.
fn copy_option_string(s: &Option<String>) -> (r: Option<String>)
    ensures
        r == *s,
{
    match s {
        Some(t) => Some(t.clone()),
        None => None,
    }
}

impl WorkerParams {
    /// Nothing set.
    pub fn new() -> (r: WorkerParams)
        ensures
            r.retention_mode is None,
            r.sleep_params is None,
            r.task_type is None,
    {
        WorkerParams { retention_mode: None, sleep_params: None, task_type: None }
    }

    pub fn set_retention_mode(&mut self, retention_mode: RetentionMode)
        ensures
            final(self).retention_mode == Some(retention_mode),
            final(self).sleep_params == old(self).sleep_params,
            final(self).task_type == old(self).task_type,
    {
        self.retention_mode = Some(retention_mode);
    }

    pub fn set_sleep_params(&mut self, sleep_params: SleepParams)
        ensures
            final(self).sleep_params == Some(sleep_params),
            final(self).retention_mode == old(self).retention_mode,
            final(self).task_type == old(self).task_type,
    {
        self.sleep_params = Some(sleep_params);
    }

    pub fn set_task_type(&mut self, task_type: String)
        ensures
            final(self).task_type == Some(task_type),
            final(self).retention_mode == old(self).retention_mode,
            final(self).sleep_params == old(self).sleep_params,
    {
        self.task_type = Some(task_type);
    }

    /// The executor that a worker of the pool runs: the defaults of
    /// `Executor::new`, overridden by every field that is set.
    pub fn executor(&self) -> (r: Executor)
        ensures
            r.task_type == self.task_type,
            r.retention_mode == match self.retention_mode {
                Some(m) => m,
                None => RetentionMode::RemoveFinished,
            },
            r.sleep_params == match self.sleep_params {
                Some(p) => p,
                None => SleepParams {
                    sleep_period: 5,
                    max_sleep_period: 15,
                    min_sleep_period: 5,
                    sleep_step: 5,
                },
            },
    {
        let mut executor = Executor::new();
        if let Some(task_type) = &self.task_type {
            executor.set_task_type(task_type.clone());
        }
        if let Some(retention_mode) = self.retention_mode {
            executor.set_retention_mode(retention_mode);
        }
        if let Some(sleep_params) = self.sleep_params {
            executor.set_sleep_params(sleep_params);
        }
        executor
    }
}

/// The decimal digit `d` as a character.
pub open spec fn digit_char(d: nat) -> char {
    if d == 0 { '0' }
    else if d == 1 { '1' }
    else if d == 2 { '2' }
    else if d == 3 { '3' }
    else if d == 4 { '4' }
    else if d == 5 { '5' }
    else if d == 6 { '6' }
    else if d == 7 { '7' }
    else if d == 8 { '8' }
    else { '9' }
}

/// `n` written in decimal, without leading zeros.
pub open spec fn decimal(n: nat) -> Seq<char>
    decreases n,
{
    if n < 10 {
        seq![digit_char(n)]
    } else {
        decimal(n / 10).push(digit_char(n % 10))
    }
}

/// The name of a pool's worker: `worker_`, the pool's task type if it has
/// one, and the worker's index.
pub open spec fn spec_worker_name(task_type: Option<String>, index: nat) -> Seq<char> {
    "worker_"@ + match task_type {
        Some(t) => t@,
        None => Seq::empty(),
    } + decimal(index)
}

/// The decimal digit `d` as a string.
fn digit_str(d: u32) -> (r: &'static str)
    requires
        d < 10,
    ensures
        r@ == seq![digit_char(d as nat)],
{
    proof {
        reveal_strlit("0");
        reveal_strlit("1");
        reveal_strlit("2");
        reveal_strlit("3");
        reveal_strlit("4");
        reveal_strlit("5");
        reveal_strlit("6");
        reveal_strlit("7");
        reveal_strlit("8");
        reveal_strlit("9");
    }
    let r = if d == 0 { "0" }
    else if d == 1 { "1" }
    else if d == 2 { "2" }
    else if d == 3 { "3" }
    else if d == 4 { "4" }
    else if d == 5 { "5" }
    else if d == 6 { "6" }
    else if d == 7 { "7" }
    else if d == 8 { "8" }
    else { "9" };
    assert(r@ =~= seq![digit_char(d as nat)]);
    r
}

/// Appends `n` in decimal.
fn append_decimal(s: &mut String, n: u32)
    ensures
        final(s)@ == old(s)@ + decimal(n as nat),
    decreases n,
{
    if n >= 10 {
        append_decimal(s, n / 10);
    }
    s.append(digit_str(n % 10));
    proof {
        if n >= 10 {
            assert(old(s)@ + decimal((n / 10) as nat) + seq![digit_char((n % 10) as nat)] =~= old(
                s,
            )@ + decimal(n as nat));
        } else {
            assert(old(s)@ + seq![digit_char((n % 10) as nat)] =~= old(s)@ + decimal(n as nat));
        }
    }
}

/// The name of a pool's worker: `worker_`, the pool's task type if it has
/// one, and the worker's index.
pub fn worker_name(task_type: &Option<String>, index: u32) -> (r: String)
    ensures
        r@ == spec_worker_name(*task_type, index as nat),
{
    proof { reveal_strlit("worker_"); }
    let mut name = String::from_str("worker_");
    if let Some(t) = task_type {
        name.append(t.as_str());
    }
    append_decimal(&mut name, index);
    proof {
        match task_type {
            Some(t) => {},
            None => { assert("worker_"@ + Seq::<char>::empty() =~= "worker_"@); },
        }
    }
    name
}

/// A pool's plan: how many workers it runs and how each is configured.
#[derive(Clone, Debug)]
pub struct WorkerPool {
    pub number_of_workers: u32,
    pub worker_params: WorkerParams,
}

impl WorkerPool {
    /// `number_of_workers` workers with the executor defaults.
    pub fn new(number_of_workers: u32) -> (r: WorkerPool)
        ensures
            r.number_of_workers == number_of_workers,
            r.worker_params.retention_mode is None,
            r.worker_params.sleep_params is None,
            r.worker_params.task_type is None,
    {
        WorkerPool { number_of_workers, worker_params: WorkerParams::new() }
    }

    /// `number_of_workers` workers configured by `worker_params`.
    pub fn new_with_params(number_of_workers: u32, worker_params: WorkerParams) -> (r: WorkerPool)
        ensures
            r.number_of_workers == number_of_workers,
            r.worker_params == worker_params,
    {
        WorkerPool { number_of_workers, worker_params }
    }

    /// The names of the workers that `start` spawns, for the indexes
    /// `1..=number_of_workers` in order.
    pub fn worker_names(&self) -> (r: Vec<String>)
        ensures
            r@.len() == self.number_of_workers,
            forall|i: int|
                0 <= i < r@.len() ==> (#[trigger] r@[i])@ == spec_worker_name(
                    self.worker_params.task_type,
                    (i + 1) as nat,
                ),
    {
        let mut names: Vec<String> = Vec::new();
        let mut i: u32 = 0;
        while i < self.number_of_workers
            invariant
                i <= self.number_of_workers,
                names@.len() == i,
                forall|k: int|
                    0 <= k < i ==> (#[trigger] names@[k])@ == spec_worker_name(
                        self.worker_params.task_type,
                        (k + 1) as nat,
                    ),
            decreases self.number_of_workers - i,
        {
            names.push(worker_name(&self.worker_params.task_type, i + 1));
            i = i + 1;
        }
        names
    }
}

/// A worker thread's record: its name, how often it was restarted, and
/// whether its last run ended by an orderly shutdown.
#[derive(Clone, Debug)]
pub struct WorkerThread {
    pub name: String,
    pub restarts: u64,
    pub graceful_shutdown: bool,
}

impl WorkerThread {
    /// A worker that has not exited yet.
    pub fn new(name: String, restarts: u64) -> (r: WorkerThread)
        ensures
            r.name == name,
            r.restarts == restarts,
            !r.graceful_shutdown,
    {
        WorkerThread { name, restarts, graceful_shutdown: false }
    }

    /// Records how the executor's loop ended: an orderly return is graceful,
    /// an error is not.
    pub fn record_exit(&mut self, returned_ok: bool)
        ensures
            final(self).name == old(self).name,
            final(self).restarts == old(self).restarts,
            final(self).graceful_shutdown == returned_ok,
    {
        self.graceful_shutdown = returned_ok;
    }

    /// The worker that replaces this one when it exits: none after an orderly
    /// shutdown, else one of the same name with one restart more (the count
    /// stays at its largest value once there).
    pub fn restart(&self) -> (r: Option<WorkerThread>)
        ensures
            self.graceful_shutdown ==> r is None,
            !self.graceful_shutdown ==> (r matches Some(w) && w.name == self.name && w.restarts
                == (if self.restarts == u64::MAX { u64::MAX as int } else { self.restarts + 1 })
                && !w.graceful_shutdown),
    {
        if self.graceful_shutdown {
            return None;
        }
        let restarts = if self.restarts == u64::MAX { u64::MAX } else { self.restarts + 1 };
        Some(WorkerThread::new(self.name.clone(), restarts))
    }
}

} // verus!
