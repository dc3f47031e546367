use vstd::prelude::*;
use crate::schema::{lifecycle_step, FangTaskState};

verus! {

/// Microseconds in a second: timestamps count microseconds since the Unix epoch.
pub const MICROS_PER_SECOND: i64 = 1_000_000;

/// A row of the one-shot task table.
#[derive(Clone, Debug)]
pub struct Task {
    /// The row's key, the bits of a UUID.
    pub id: u128,
    /// The serialized job, a tagged JSON document.
    pub metadata: String,
    /// Set when the row fails.
    pub error_message: Option<String>,
    pub state: FangTaskState,
    /// Routes the row to workers of one type.
    pub task_type: String,
    pub created_at: i64,
    pub updated_at: i64,
}

/// A row of the periodic task table: a template that the scheduler turns into
/// one-shot tasks.
#[derive(Clone, Debug)]
pub struct PeriodicTask {
    pub id: u128,
    pub metadata: String,
    pub period_in_seconds: i32,
    /// The next firing; `None` until the first scan.
    pub scheduled_at: Option<i64>,
    pub created_at: i64,
    pub updated_at: i64,
}

/// What a producer hands in for a one-shot task.
#[derive(Clone, Debug)]
pub struct NewTask {
    pub metadata: String,
    pub task_type: String,
}

/// What a producer hands in for a periodic task.
#[derive(Clone, Debug)]
pub struct NewPeriodicTask {
    pub metadata: String,
    pub period_in_seconds: i32,
}

/// Why a queue operation did not take place.
#[derive(Clone, Copy, Debug, PartialEq, Eq, Structural)]
pub enum QueueError {
    /// No row has the given id.
    NotFound,
    /// Every row id has been handed out.
    IdsExhausted,
    /// A computed timestamp does not fit in 64 bits.
    TimeOutOfRange,
    /// A period that is not a positive number of seconds.
    InvalidPeriod,
}

/// The type filter of a fetch, as a sequence of characters.
pub open spec fn type_filter(task_type: Option<String>) -> Option<Seq<char>> {
    match task_type {
        Some(t) => Some(t@),
        None => None,
    }
}

/// A row that a worker with this filter may claim: `New`, of the requested
/// type if one is given, and not locked by another session.
pub open spec fn is_candidate(t: Task, task_type: Option<Seq<char>>, locked: Seq<u128>) -> bool {
    &&& t.state == FangTaskState::New
    &&& match task_type {
        Some(ty) => t.task_type@ == ty,
        None => true,
    }
    &&& !locked.contains(t.id)
}

/// Row `i` is the one that a claim takes: the oldest candidate by creation
/// time, the first in table order among equally old ones.
pub open spec fn is_next_task(
    rows: Seq<Task>,
    i: int,
    task_type: Option<Seq<char>>,
    locked: Seq<u128>,
) -> bool {
    &&& 0 <= i < rows.len()
    &&& is_candidate(rows[i], task_type, locked)
    &&& forall|j: int|
        0 <= j < rows.len() && #[trigger] is_candidate(rows[j], task_type, locked) ==> {
            &&& rows[i].created_at <= rows[j].created_at
            &&& (j < i ==> rows[i].created_at < rows[j].created_at)
        }
}

/// Some row may be claimed.
pub open spec fn has_candidate(rows: Seq<Task>, task_type: Option<Seq<char>>, locked: Seq<u128>) -> bool {
    exists|j: int| 0 <= j < rows.len() && #[trigger] is_candidate(rows[j], task_type, locked)
}

/// Whether `id` is in `ids`.
pub fn contains_id(ids: &Vec<u128>, id: u128) -> (r: bool)
    ensures
        r == ids@.contains(id),
{
    let mut k: usize = 0;
    while k < ids.len()
        invariant
            k <= ids.len(),
            forall|m: int| 0 <= m < k ==> ids@[m] != id,
        decreases ids.len() - k,
    {
        if ids[k] == id {
            assert(ids@[k as int] == id);
            return true;
        }
        k = k + 1;
    }
    false
}

/// Whether `t` is a candidate for a claim.
fn candidate(t: &Task, task_type: &Option<String>, locked: &Vec<u128>) -> (r: bool)
    ensures
        r == is_candidate(*t, type_filter(*task_type), locked@),
{
    if t.state != FangTaskState::New {
        return false;
    }
    let type_matches = match task_type {
        Some(ty) => t.task_type == *ty,
        None => true,
    };
    type_matches && !contains_id(locked, t.id)
}

/// The claim rule over a snapshot of the task table: the index of the oldest
/// `New` row of the requested type that no other session has locked, or `None`
/// when there is none.
pub fn next_task_index(rows: &Vec<Task>, task_type: &Option<String>, locked: &Vec<u128>) -> (r:
    Option<usize>)
    ensures
        match r {
            Some(i) => is_next_task(rows@, i as int, type_filter(*task_type), locked@),
            None => !has_candidate(rows@, type_filter(*task_type), locked@),
        },
{
    let ghost ty = type_filter(*task_type);
    let mut best: Option<usize> = None;
    let mut k: usize = 0;
    while k < rows.len()
        invariant
            k <= rows.len(),
            ty == type_filter(*task_type),
            match best {
                Some(b) => {
                    &&& b < k
                    &&& is_candidate(rows@[b as int], ty, locked@)
                    &&& forall|j: int|
                        0 <= j < k && #[trigger] is_candidate(rows@[j], ty, locked@) ==> {
                            &&& rows@[b as int].created_at <= rows@[j].created_at
                            &&& (j < b ==> rows@[b as int].created_at < rows@[j].created_at)
                        }
                },
                None => forall|j: int| 0 <= j < k ==> !#[trigger] is_candidate(rows@[j], ty, locked@),
            },
        decreases rows.len() - k,
    {
        if candidate(&rows[k], task_type, locked) {
            match best {
                Some(b) => {
                    if rows[k].created_at < rows[b].created_at {
                        best = Some(k);
                    }
                },
                None => {
                    best = Some(k);
                },
            }
        }
        k = k + 1;
    }
    best
}

/// A copy of a row, field by field.
fn copy_task(t: &Task) -> (r: Task)
    ensures
        r == *t,
{
    let error_message = match &t.error_message {
        Some(m) => Some(m.clone()),
        None => None,
    };
    Task {
        id: t.id,
        metadata: t.metadata.clone(),
        error_message,
        state: t.state,
        task_type: t.task_type.clone(),
        created_at: t.created_at,
        updated_at: t.updated_at,
    }
}

/// A copy of a periodic row, field by field.
fn copy_periodic_task(t: &PeriodicTask) -> (r: PeriodicTask)
    ensures
        r == *t,
{
    PeriodicTask {
        id: t.id,
        metadata: t.metadata.clone(),
        period_in_seconds: t.period_in_seconds,
        scheduled_at: t.scheduled_at,
        created_at: t.created_at,
        updated_at: t.updated_at,
    }
}

/// The row that an insert creates.
pub open spec fn new_task_row(id: u128, params: NewTask, now: i64) -> Task {
    Task {
        id,
        metadata: params.metadata,
        error_message: None,
        state: FangTaskState::New,
        task_type: params.task_type,
        created_at: now,
        updated_at: now,
    }
}

/// The periodic row that a push creates.
pub open spec fn new_periodic_row(id: u128, params: NewPeriodicTask, now: i64) -> PeriodicTask {
    PeriodicTask {
        id,
        metadata: params.metadata,
        period_in_seconds: params.period_in_seconds,
        scheduled_at: None,
        created_at: now,
        updated_at: now,
    }
}

/// A row moved to `state`, its update time bumped.
pub open spec fn with_state(t: Task, state: FangTaskState, now: i64) -> Task {
    Task { state, updated_at: now, ..t }
}

/// A row marked `Failed` with its error message.
pub open spec fn with_failure(t: Task, message: String, now: i64) -> Task {
    Task { state: FangTaskState::Failed, error_message: Some(message), updated_at: now, ..t }
}

/// A row that makes a push of the same document return it: same metadata,
/// and `New` or `InProgress`.
pub open spec fn is_active_match(t: Task, metadata: Seq<char>) -> bool {
    t.metadata@ == metadata && (t.state == FangTaskState::New || t.state
        == FangTaskState::InProgress)
}

/// Row `i` is the first active match of `metadata` in table order.
pub open spec fn is_first_active_match(rows: Seq<Task>, i: int, metadata: Seq<char>) -> bool {
    &&& 0 <= i < rows.len()
    &&& is_active_match(rows[i], metadata)
    &&& forall|j: int| 0 <= j < i ==> !#[trigger] is_active_match(rows[j], metadata)
}

/// Row `i` is the first periodic row with this metadata in table order.
pub open spec fn is_first_periodic_match(rows: Seq<PeriodicTask>, i: int, metadata: Seq<char>) -> bool {
    &&& 0 <= i < rows.len()
    &&& rows[i].metadata@ == metadata
    &&& forall|j: int| 0 <= j < i ==> (#[trigger] rows[j]).metadata@ != metadata
}

/// The contents of a queue: both tables in storage order, and the id that the
/// next inserted row receives.
pub struct QueueView {
    pub tasks: Seq<Task>,
    pub periodic_tasks: Seq<PeriodicTask>,
    pub next_id: u128,
}

impl QueueView {
    /// Every id was handed out before `next_id`, and no two rows of a table
    /// share an id.
    pub open spec fn wf(self) -> bool {
        &&& forall|i: int| 0 <= i < self.tasks.len() ==> (#[trigger] self.tasks[i]).id < self.next_id
        &&& forall|i: int, j: int|
            0 <= i < j < self.tasks.len() ==> (#[trigger] self.tasks[i]).id != (
            #[trigger] self.tasks[j]).id
        &&& forall|i: int|
            0 <= i < self.periodic_tasks.len() ==> (#[trigger] self.periodic_tasks[i]).id
                < self.next_id
        &&& forall|i: int, j: int|
            0 <= i < j < self.periodic_tasks.len() ==> (#[trigger] self.periodic_tasks[i]).id != (
            #[trigger] self.periodic_tasks[j]).id
    }

    /// Some one-shot row has this id.
    pub open spec fn has_task(self, id: u128) -> bool {
        exists|i: int| 0 <= i < self.tasks.len() && (#[trigger] self.tasks[i]).id == id
    }

    /// Some periodic row has this id.
    pub open spec fn has_periodic_task(self, id: u128) -> bool {
        exists|i: int| 0 <= i < self.periodic_tasks.len() && (#[trigger] self.periodic_tasks[i]).id == id
    }
}

/// What `insert` does: append a `New` row under the next id, or refuse when
/// the ids are spent.
pub open spec fn insert_post(
    pre: QueueView,
    params: NewTask,
    now: i64,
    post: QueueView,
    r: Result<Task, QueueError>,
) -> bool {
    if pre.next_id == u128::MAX {
        r == Err::<Task, QueueError>(QueueError::IdsExhausted) && post == pre
    } else {
        let t = new_task_row(pre.next_id, params, now);
        &&& r == Ok::<Task, QueueError>(t)
        &&& post == QueueView {
            tasks: pre.tasks.push(t),
            next_id: (pre.next_id + 1) as u128,
            ..pre
        }
    }
}

/// What `push_task` does: return the first `New` or `InProgress` row with the
/// same metadata, or else insert.
pub open spec fn push_task_post(
    pre: QueueView,
    job: NewTask,
    now: i64,
    post: QueueView,
    r: Result<Task, QueueError>,
) -> bool {
    if exists|i: int| 0 <= i < pre.tasks.len() && #[trigger] is_active_match(pre.tasks[i], job.metadata@) {
        &&& post == pre
        &&& exists|i: int|
            #[trigger] is_first_active_match(pre.tasks, i, job.metadata@) && r == Ok::<Task, QueueError>(
                pre.tasks[i],
            )
    } else {
        insert_post(pre, job, now, post, r)
    }
}

/// What `push_periodic_task` does: refuse a period that is not positive,
/// return the first periodic row with the same metadata whatever its state, or
/// else insert a row that has never fired.
pub open spec fn push_periodic_task_post(
    pre: QueueView,
    job: NewPeriodicTask,
    now: i64,
    post: QueueView,
    r: Result<PeriodicTask, QueueError>,
) -> bool {
    if job.period_in_seconds <= 0 {
        r == Err::<PeriodicTask, QueueError>(QueueError::InvalidPeriod) && post == pre
    } else if exists|i: int|
        0 <= i < pre.periodic_tasks.len() && (#[trigger] pre.periodic_tasks[i]).metadata@
            == job.metadata@ {
        &&& post == pre
        &&& exists|i: int|
            #[trigger] is_first_periodic_match(pre.periodic_tasks, i, job.metadata@) && r == Ok::<
                PeriodicTask,
                QueueError,
            >(pre.periodic_tasks[i])
    } else if pre.next_id == u128::MAX {
        r == Err::<PeriodicTask, QueueError>(QueueError::IdsExhausted) && post == pre
    } else {
        let t = new_periodic_row(pre.next_id, job, now);
        &&& r == Ok::<PeriodicTask, QueueError>(t)
        &&& post == QueueView {
            periodic_tasks: pre.periodic_tasks.push(t),
            next_id: (pre.next_id + 1) as u128,
            ..pre
        }
    }
}

/// What `fetch_and_touch` does: claim the next task of the requested type and
/// mark it `InProgress`, or change nothing when there is none.
pub open spec fn fetch_and_touch_post(
    pre: QueueView,
    task_type: Option<Seq<char>>,
    now: i64,
    post: QueueView,
    r: Result<Option<Task>, QueueError>,
) -> bool {
    match r {
        Ok(None) => !has_candidate(pre.tasks, task_type, Seq::empty()) && post == pre,
        Ok(Some(t)) => exists|i: int|
            #[trigger] is_next_task(pre.tasks, i, task_type, Seq::empty()) && t == with_state(
                pre.tasks[i],
                FangTaskState::InProgress,
                now,
            ) && post == QueueView { tasks: pre.tasks.update(i, t), ..pre },
        Err(_) => false,
    }
}

/// A row after an update: `Failed` with the message when one is given, else
/// moved to `state`; updated at `now` either way.
pub open spec fn updated_row(t: Task, state: FangTaskState, message: Option<String>, now: i64) -> Task {
    match message {
        Some(m) => with_failure(t, m, now),
        None => with_state(t, state, now),
    }
}

/// The effect of an update of one row by id: the row holding `id` is updated,
/// or nothing changes when there is none (and `done` is false).
pub open spec fn row_effect(
    pre: QueueView,
    id: u128,
    state: FangTaskState,
    message: Option<String>,
    now: i64,
    post: QueueView,
    done: bool,
) -> bool {
    if pre.has_task(id) {
        &&& done
        &&& exists|i: int|
            0 <= i < pre.tasks.len() && (#[trigger] pre.tasks[i]).id == id && post == (QueueView {
                tasks: pre.tasks.update(i, updated_row(pre.tasks[i], state, message, now)),
                ..pre
            })
    } else {
        !done && post == pre
    }
}

/// What an update of one row by id does: replace the row holding `id` with
/// its updated form and return that, or report `NotFound` and change nothing.
pub open spec fn row_update_post(
    pre: QueueView,
    id: u128,
    state: FangTaskState,
    message: Option<String>,
    now: i64,
    post: QueueView,
    r: Result<Task, QueueError>,
) -> bool {
    &&& row_effect(pre, id, state, message, now, post, r is Ok)
    &&& match r {
        Ok(t) => exists|i: int|
            0 <= i < pre.tasks.len() && (#[trigger] pre.tasks[i]).id == id && t == updated_row(
                pre.tasks[i],
                state,
                message,
                now,
            ),
        Err(e) => e == QueueError::NotFound,
    }
}

/// The effect of deleting the row with this id, if there is one.
pub open spec fn remove_effect(pre: QueueView, id: u128, post: QueueView) -> bool {
    if pre.has_task(id) {
        exists|i: int|
            0 <= i < pre.tasks.len() && (#[trigger] pre.tasks[i]).id == id && post == (QueueView {
                tasks: pre.tasks.remove(i),
                ..pre
            })
    } else {
        post == pre
    }
}

/// What `remove_task` does: delete the row with this id and count it, or
/// count nothing when there is none.
pub open spec fn remove_task_post(
    pre: QueueView,
    id: u128,
    post: QueueView,
    r: Result<usize, QueueError>,
) -> bool {
    &&& remove_effect(pre, id, post)
    &&& r == Ok::<usize, QueueError>(if pre.has_task(id) { 1 } else { 0 })
}

/// The index of the row with this id.
fn task_position(rows: &Vec<Task>, id: u128) -> (r: Option<usize>)
    ensures
        match r {
            Some(i) => i < rows@.len() && rows@[i as int].id == id,
            None => forall|j: int| 0 <= j < rows@.len() ==> (#[trigger] rows@[j]).id != id,
        },
{
    let mut k: usize = 0;
    while k < rows.len()
        invariant
            k <= rows.len(),
            forall|j: int| 0 <= j < k ==> (#[trigger] rows@[j]).id != id,
        decreases rows.len() - k,
    {
        if rows[k].id == id {
            return Some(k);
        }
        k = k + 1;
    }
    None
}

/// The index of the periodic row with this id.
fn periodic_task_position(rows: &Vec<PeriodicTask>, id: u128) -> (r: Option<usize>)
    ensures
        match r {
            Some(i) => i < rows@.len() && rows@[i as int].id == id,
            None => forall|j: int| 0 <= j < rows@.len() ==> (#[trigger] rows@[j]).id != id,
        },
{
    let mut k: usize = 0;
    while k < rows.len()
        invariant
            k <= rows.len(),
            forall|j: int| 0 <= j < k ==> (#[trigger] rows@[j]).id != id,
        decreases rows.len() - k,
    {
        if rows[k].id == id {
            return Some(k);
        }
        k = k + 1;
    }
    None
}

/// The index of the first `New` or `InProgress` row with this metadata.
fn first_active_match(rows: &Vec<Task>, metadata: &String) -> (r: Option<usize>)
    ensures
        match r {
            Some(i) => is_first_active_match(rows@, i as int, metadata@),
            None => forall|j: int| 0 <= j < rows@.len() ==> !#[trigger] is_active_match(rows@[j], metadata@),
        },
{
    let mut k: usize = 0;
    while k < rows.len()
        invariant
            k <= rows.len(),
            forall|j: int| 0 <= j < k ==> !#[trigger] is_active_match(rows@[j], metadata@),
        decreases rows.len() - k,
    {
        let t = &rows[k];
        if t.metadata == *metadata && (t.state == FangTaskState::New || t.state
            == FangTaskState::InProgress) {
            return Some(k);
        }
        k = k + 1;
    }
    None
}

/// The index of the first periodic row with this metadata.
fn first_periodic_match(rows: &Vec<PeriodicTask>, metadata: &String) -> (r: Option<usize>)
    ensures
        match r {
            Some(i) => is_first_periodic_match(rows@, i as int, metadata@),
            None => forall|j: int| 0 <= j < rows@.len() ==> (#[trigger] rows@[j]).metadata@ != metadata@,
        },
{
    let mut k: usize = 0;
    while k < rows.len()
        invariant
            k <= rows.len(),
            forall|j: int| 0 <= j < k ==> (#[trigger] rows@[j]).metadata@ != metadata@,
        decreases rows.len() - k,
    {
        if rows[k].metadata == *metadata {
            return Some(k);
        }
        k = k + 1;
    }
    None
}

/// A periodic row is due at `now`: it has never fired, or its firing lies
/// within `margin_seconds` of `now`, both ends included.
pub open spec fn is_due(t: PeriodicTask, now: i64, margin_seconds: i64) -> bool {
    match t.scheduled_at {
        None => true,
        Some(at) => now - margin_seconds * MICROS_PER_SECOND <= at <= now + margin_seconds
            * MICROS_PER_SECOND,
    }
}

/// The rows that are due at `now`, in table order.
pub open spec fn due_rows(rows: Seq<PeriodicTask>, now: i64, margin_seconds: i64) -> Seq<PeriodicTask> {
    rows.filter(|t: PeriodicTask| is_due(t, now, margin_seconds))
}

/// The firing that follows a scan at `now`.
pub open spec fn next_firing(now: i64, period_in_seconds: i32) -> int {
    now + period_in_seconds * MICROS_PER_SECOND
}

/// What `schedule_next_task_execution` does: set the next firing of the row
/// of `task` to `now` plus the task's period, or change nothing and report a
/// missing row or a firing that does not fit in 64 bits.
pub open spec fn advance_post(
    pre: QueueView,
    task: PeriodicTask,
    now: i64,
    post: QueueView,
    r: Result<PeriodicTask, QueueError>,
) -> bool {
    match r {
        Ok(t) => exists|i: int|
            0 <= i < pre.periodic_tasks.len() && (#[trigger] pre.periodic_tasks[i]).id == task.id
                && fits_i64(next_firing(now, task.period_in_seconds)) && t == (PeriodicTask {
                scheduled_at: Some(next_firing(now, task.period_in_seconds) as i64),
                updated_at: now,
                ..pre.periodic_tasks[i]
            }) && post == (QueueView { periodic_tasks: pre.periodic_tasks.update(i, t), ..pre }),
        Err(e) => post == pre && (if pre.has_periodic_task(task.id) {
            e == QueueError::TimeOutOfRange && !fits_i64(next_firing(now, task.period_in_seconds))
        } else {
            e == QueueError::NotFound
        }),
    }
}

/// Whether an integer fits in 64 bits.
pub open spec fn fits_i64(x: int) -> bool {
    i64::MIN <= x <= i64::MAX
}

/// Whether a periodic row is due.
fn due(t: &PeriodicTask, now: i64, margin_seconds: i64) -> (r: bool)
    ensures
        r == is_due(*t, now, margin_seconds),
{
    match t.scheduled_at {
        None => true,
        Some(at) => {
            let margin = margin_seconds as i128 * 1_000_000i128;
            let low = now as i128 - margin;
            let high = now as i128 + margin;
            low <= at as i128 && at as i128 <= high
        },
    }
}

/// The two task tables.
pub struct Queue {
    tasks: Vec<Task>,
    periodic_tasks: Vec<PeriodicTask>,
    next_id: u128,
}

impl View for Queue {
    type V = QueueView;

    closed spec fn view(&self) -> QueueView {
        QueueView { tasks: self.tasks@, periodic_tasks: self.periodic_tasks@, next_id: self.next_id }
    }
}

impl Queue {
    /// Empty tables.
    pub fn new() -> (r: Queue)
        ensures
            r@.wf(),
            r@.tasks.len() == 0,
            r@.periodic_tasks.len() == 0,
            r@.next_id == 0,
    {
        Queue { tasks: Vec::new(), periodic_tasks: Vec::new(), next_id: 0 }
    }

    /// Inserts a `New` row for `params`, created and updated at `now`.
    pub fn insert(&mut self, params: &NewTask, now: i64) -> (r: Result<Task, QueueError>)
        requires
            old(self)@.wf(),
        ensures
            final(self)@.wf(),
            insert_post(old(self)@, *params, now, final(self)@, r),
    {
        if self.next_id == u128::MAX {
            return Err(QueueError::IdsExhausted);
        }
        let t = Task {
            id: self.next_id,
            metadata: params.metadata.clone(),
            error_message: None,
            state: FangTaskState::New,
            task_type: params.task_type.clone(),
            created_at: now,
            updated_at: now,
        };
        let r = copy_task(&t);
        self.tasks.push(t);
        self.next_id = self.next_id + 1;
        Ok(r)
    }

    /// Pushes a job: the first `New` or `InProgress` row with the same
    /// metadata if there is one, else a new row.
    pub fn push_task(&mut self, job: &NewTask, now: i64) -> (r: Result<Task, QueueError>)
        requires
            old(self)@.wf(),
        ensures
            final(self)@.wf(),
            push_task_post(old(self)@, *job, now, final(self)@, r),
    {
        match first_active_match(&self.tasks, &job.metadata) {
            Some(i) => {
                let r = copy_task(&self.tasks[i]);
                assert(is_active_match(self@.tasks[i as int], job.metadata@));
                Ok(r)
            },
            None => self.insert(job, now),
        }
    }

    /// Pushes a periodic job: the first periodic row with the same metadata if
    /// there is one, else a new row that has never fired.
    pub fn push_periodic_task(&mut self, job: &NewPeriodicTask, now: i64) -> (r: Result<
        PeriodicTask,
        QueueError,
    >)
        requires
            old(self)@.wf(),
        ensures
            final(self)@.wf(),
            push_periodic_task_post(old(self)@, *job, now, final(self)@, r),
    {
        if job.period_in_seconds <= 0 {
            return Err(QueueError::InvalidPeriod);
        }
        match first_periodic_match(&self.periodic_tasks, &job.metadata) {
            Some(i) => {
                let r = copy_periodic_task(&self.periodic_tasks[i]);
                assert(self@.periodic_tasks[i as int].metadata@ == job.metadata@);
                Ok(r)
            },
            None => {
                if self.next_id == u128::MAX {
                    return Err(QueueError::IdsExhausted);
                }
                let t = PeriodicTask {
                    id: self.next_id,
                    metadata: job.metadata.clone(),
                    period_in_seconds: job.period_in_seconds,
                    scheduled_at: None,
                    created_at: now,
                    updated_at: now,
                };
                let r = copy_periodic_task(&t);
                self.periodic_tasks.push(t);
                self.next_id = self.next_id + 1;
                Ok(r)
            },
        }
    }

    /// Claims nothing: the oldest `New` row of the requested type, if any.
    pub fn fetch_task(&self, task_type: &Option<String>) -> (r: Option<Task>)
        ensures
            match r {
                Some(t) => exists|i: int|
                    #[trigger] is_next_task(self@.tasks, i, type_filter(*task_type), Seq::empty())
                        && t == self@.tasks[i],
                None => !has_candidate(self@.tasks, type_filter(*task_type), Seq::empty()),
            },
    {
        let none: Vec<u128> = Vec::new();
        let r = self.fetch_task_skipping(task_type, &none);
        assert(none@ =~= Seq::<u128>::empty());
        r
    }

    /// The oldest `New` row of the requested type that is not among `locked`,
    /// the rows that other sessions hold.
    pub fn fetch_task_skipping(&self, task_type: &Option<String>, locked: &Vec<u128>) -> (r: Option<
        Task,
    >)
        ensures
            match r {
                Some(t) => exists|i: int|
                    #[trigger] is_next_task(self@.tasks, i, type_filter(*task_type), locked@) && t
                        == self@.tasks[i],
                None => !has_candidate(self@.tasks, type_filter(*task_type), locked@),
            },
    {
        match next_task_index(&self.tasks, task_type, locked) {
            Some(i) => {
                let t = copy_task(&self.tasks[i]);
                assert(is_next_task(self@.tasks, i as int, type_filter(*task_type), locked@));
                Some(t)
            },
            None => None,
        }
    }

    /// Claims the next task of the requested type in one step: it becomes
    /// `InProgress`, updated at `now`.
    pub fn fetch_and_touch(&mut self, task_type: &Option<String>, now: i64) -> (r: Result<
        Option<Task>,
        QueueError,
    >)
        requires
            old(self)@.wf(),
        ensures
            final(self)@.wf(),
            fetch_and_touch_post(old(self)@, type_filter(*task_type), now, final(self)@, r),
    {
        let none: Vec<u128> = Vec::new();
        assert(none@ =~= Seq::<u128>::empty());
        match next_task_index(&self.tasks, task_type, &none) {
            Some(i) => {
                let mut t = copy_task(&self.tasks[i]);
                t.state = FangTaskState::InProgress;
                t.updated_at = now;
                let r = copy_task(&t);
                self.tasks.set(i, t);
                assert(self@.tasks =~= old(self)@.tasks.update(i as int, r));
                proof { lemma_update_keeps_wf(old(self)@, i as int, r); }
                Ok(Some(r))
            },
            None => Ok(None),
        }
    }

    /// The one-shot row with this id.
    pub fn find_task_by_id(&self, id: u128) -> (r: Option<Task>)
        ensures
            match r {
                Some(t) => exists|i: int|
                    0 <= i < self@.tasks.len() && t == #[trigger] self@.tasks[i] && t.id == id,
                None => !self@.has_task(id),
            },
    {
        match task_position(&self.tasks, id) {
            Some(i) => {
                let t = copy_task(&self.tasks[i]);
                assert(t == self@.tasks[i as int]);
                Some(t)
            },
            None => None,
        }
    }

    /// The periodic row with this id.
    pub fn find_periodic_task_by_id(&self, id: u128) -> (r: Option<PeriodicTask>)
        ensures
            match r {
                Some(t) => exists|i: int|
                    0 <= i < self@.periodic_tasks.len() && t == #[trigger] self@.periodic_tasks[i]
                        && t.id == id,
                None => !self@.has_periodic_task(id),
            },
    {
        match periodic_task_position(&self.periodic_tasks, id) {
            Some(i) => {
                let t = copy_periodic_task(&self.periodic_tasks[i]);
                assert(t == self@.periodic_tasks[i as int]);
                Some(t)
            },
            None => None,
        }
    }

    /// Marks the row of `task` `InProgress`, updated at `now`.
    pub fn start_processing_task(&mut self, task: &Task, now: i64) -> (r: Result<Task, QueueError>)
        requires
            old(self)@.wf(),
        ensures
            final(self)@.wf(),
            row_update_post(
                old(self)@,
                task.id,
                FangTaskState::InProgress,
                None,
                now,
                final(self)@,
                r,
            ),
    {
        self.update_row(task.id, FangTaskState::InProgress, None, now)
    }

    /// Marks the row of `task` `Finished`, updated at `now`.
    pub fn finish_task(&mut self, task: &Task, now: i64) -> (r: Result<Task, QueueError>)
        requires
            old(self)@.wf(),
        ensures
            final(self)@.wf(),
            row_update_post(
                old(self)@,
                task.id,
                FangTaskState::Finished,
                None,
                now,
                final(self)@,
                r,
            ),
    {
        self.update_row(task.id, FangTaskState::Finished, None, now)
    }

    /// Marks the row of `task` `Failed` with `error` as its message, updated
    /// at `now`.
    pub fn fail_task(&mut self, task: &Task, error: String, now: i64) -> (r: Result<Task, QueueError>)
        requires
            old(self)@.wf(),
        ensures
            final(self)@.wf(),
            row_update_post(
                old(self)@,
                task.id,
                FangTaskState::Failed,
                Some(error),
                now,
                final(self)@,
                r,
            ),
    {
        self.update_row(task.id, FangTaskState::Failed, Some(error), now)
    }

    /// Deletes the one-shot row with this id; the count of deleted rows.
    pub fn remove_task(&mut self, id: u128) -> (r: Result<usize, QueueError>)
        requires
            old(self)@.wf(),
        ensures
            final(self)@.wf(),
            remove_task_post(old(self)@, id, final(self)@, r),
    {
        match task_position(&self.tasks, id) {
            Some(i) => {
                let ghost pre = self@;
                self.tasks.remove(i);
                assert(self@.tasks =~= pre.tasks.remove(i as int));
                assert forall|a: int, b: int|
                    0 <= a < b < self@.tasks.len() implies (#[trigger] self@.tasks[a]).id != (
                    #[trigger] self@.tasks[b]).id by {
                    if a < i {
                        if b < i {
                            assert(pre.tasks[a].id != pre.tasks[b].id);
                        } else {
                            assert(pre.tasks[a].id != pre.tasks[b + 1].id);
                        }
                    } else {
                        assert(pre.tasks[a + 1].id != pre.tasks[b + 1].id);
                    }
                }
                assert forall|a: int| 0 <= a < self@.tasks.len() implies (#[trigger] self@.tasks[a]).id
                    < self@.next_id by {
                    if a < i {
                        assert(pre.tasks[a].id < pre.next_id);
                    } else {
                        assert(pre.tasks[a + 1].id < pre.next_id);
                    }
                }
                Ok(1)
            },
            None => Ok(0),
        }
    }

    /// Deletes every one-shot row; the count of deleted rows.
    pub fn remove_all_tasks(&mut self) -> (r: Result<usize, QueueError>)
        requires
            old(self)@.wf(),
        ensures
            final(self)@.wf(),
            r == Ok::<usize, QueueError>(old(self)@.tasks.len() as usize),
            final(self)@ == (QueueView { tasks: Seq::empty(), ..old(self)@ }),
    {
        let n = self.tasks.len();
        self.tasks.clear();
        Ok(n)
    }

    /// Deletes every one-shot row of this type; the count of deleted rows.
    pub fn remove_tasks_of_type(&mut self, task_type: &str) -> (r: Result<usize, QueueError>)
        requires
            old(self)@.wf(),
        ensures
            final(self)@.wf(),
            final(self)@ == (QueueView {
                tasks: old(self)@.tasks.filter(|t: Task| t.task_type@ != task_type@),
                ..old(self)@
            }),
            r == Ok::<usize, QueueError>((old(self)@.tasks.len() - final(self)@.tasks.len()) as usize),
    {
        let ghost pred = |t: Task| t.task_type@ != task_type@;
        let ghost pre = self@;
        let ty = String::from_str(task_type);
        let mut kept: Vec<Task> = Vec::new();
        let mut k: usize = 0;
        while k < self.tasks.len()
            invariant
                pre == self@,
                pre.wf(),
                ty@ == task_type@,
                pred == (|t: Task| t.task_type@ != task_type@),
                k <= pre.tasks.len(),
                kept@ == pre.tasks.subrange(0, k as int).filter(pred),
                kept@.len() <= k,
                forall|m: int| 0 <= m < kept@.len() ==> exists|j: int|
                    0 <= j < k && #[trigger] kept@[m] == #[trigger] pre.tasks[j],
                forall|a: int, b: int|
                    0 <= a < b < kept@.len() ==> (#[trigger] kept@[a]).id != (#[trigger] kept@[b]).id,
            decreases pre.tasks.len() - k,
        {
            let t = &self.tasks[k];
            proof {
                assert(pre.tasks.subrange(0, k + 1) =~= pre.tasks.subrange(0, k as int).push(
                    pre.tasks[k as int],
                ));
                pre.tasks.subrange(0, k as int).lemma_filter_push(pre.tasks[k as int], pred);
                pre.tasks.subrange(0, k as int).lemma_filter_len(pred);
            }
            if !(t.task_type == ty) {
                let c = copy_task(t);
                proof {
                    assert forall|m: int| 0 <= m < kept@.len() implies (#[trigger] kept@[m]).id != c.id by {
                        let j = choose|j: int| 0 <= j < k && kept@[m] == pre.tasks[j];
                        assert(pre.tasks[j].id != pre.tasks[k as int].id);
                    }
                }
                kept.push(c);
                proof {
                    assert forall|m: int| 0 <= m < kept@.len() implies exists|j: int|
                        0 <= j < k + 1 && #[trigger] kept@[m] == #[trigger] pre.tasks[j] by {
                        if m < kept@.len() - 1 {
                            let j = choose|j: int| 0 <= j < k && kept@[m] == pre.tasks[j];
                            assert(kept@[m] == pre.tasks[j]);
                        } else {
                            assert(kept@[m] == pre.tasks[k as int]);
                        }
                    }
                }
            }
            k = k + 1;
        }
        assert(pre.tasks.subrange(0, k as int) =~= pre.tasks);
        let removed = self.tasks.len() - kept.len();
        self.tasks = kept;
        assert forall|a: int| 0 <= a < self@.tasks.len() implies (
        #[trigger] self@.tasks[a]).id < self@.next_id by {
            let j = choose|j: int| 0 <= j < k && self@.tasks[a] == pre.tasks[j];
            assert(pre.tasks[j].id < pre.next_id);
        }
        Ok(removed)
    }

    /// Deletes every periodic row; the count of deleted rows.
    pub fn remove_all_periodic_tasks(&mut self) -> (r: Result<usize, QueueError>)
        requires
            old(self)@.wf(),
        ensures
            final(self)@.wf(),
            r == Ok::<usize, QueueError>(old(self)@.periodic_tasks.len() as usize),
            final(self)@ == (QueueView { periodic_tasks: Seq::empty(), ..old(self)@ }),
    {
        let n = self.periodic_tasks.len();
        self.periodic_tasks.clear();
        Ok(n)
    }

    /// The periodic rows that are due at `now`, in table order.
    pub fn fetch_periodic_tasks(&self, error_margin_seconds: i64, now: i64) -> (r: Option<
        Vec<PeriodicTask>,
    >)
        ensures
            r is Some,
            r matches Some(v) && v@ == due_rows(self@.periodic_tasks, now, error_margin_seconds),
    {
        let ghost pred = |t: PeriodicTask| is_due(t, now, error_margin_seconds);
        let ghost rows = self@.periodic_tasks;
        let mut found: Vec<PeriodicTask> = Vec::new();
        let mut k: usize = 0;
        while k < self.periodic_tasks.len()
            invariant
                rows == self@.periodic_tasks,
                pred == (|t: PeriodicTask| is_due(t, now, error_margin_seconds)),
                k <= rows.len(),
                found@ == rows.subrange(0, k as int).filter(pred),
            decreases rows.len() - k,
        {
            proof {
                assert(rows.subrange(0, k + 1) =~= rows.subrange(0, k as int).push(rows[k as int]));
                rows.subrange(0, k as int).lemma_filter_push(rows[k as int], pred);
            }
            if due(&self.periodic_tasks[k], now, error_margin_seconds) {
                found.push(copy_periodic_task(&self.periodic_tasks[k]));
            }
            k = k + 1;
        }
        assert(rows.subrange(0, k as int) =~= rows);
        Some(found)
    }

    /// Advances the periodic row of `task`: its next firing becomes `now` plus
    /// the task's period, and it is updated at `now`.
    pub fn schedule_next_task_execution(&mut self, task: &PeriodicTask, now: i64) -> (r: Result<
        PeriodicTask,
        QueueError,
    >)
        requires
            old(self)@.wf(),
        ensures
            final(self)@.wf(),
            advance_post(old(self)@, *task, now, final(self)@, r),
    {
        match periodic_task_position(&self.periodic_tasks, task.id) {
            Some(i) => {
                let next = now as i128 + task.period_in_seconds as i128 * 1_000_000i128;
                if next < i64::MIN as i128 || next > i64::MAX as i128 {
                    return Err(QueueError::TimeOutOfRange);
                }
                let mut t = copy_periodic_task(&self.periodic_tasks[i]);
                t.scheduled_at = Some(next as i64);
                t.updated_at = now;
                let r = copy_periodic_task(&t);
                let ghost pre = self@;
                self.periodic_tasks.set(i, t);
                assert(self@.periodic_tasks =~= pre.periodic_tasks.update(i as int, r));
                assert forall|a: int, b: int|
                    0 <= a < b < self@.periodic_tasks.len() implies (
                    #[trigger] self@.periodic_tasks[a]).id != (#[trigger] self@.periodic_tasks[b]).id by {
                    assert(pre.periodic_tasks[a].id != pre.periodic_tasks[b].id);
                }
                assert forall|a: int| 0 <= a < self@.periodic_tasks.len() implies (
                #[trigger] self@.periodic_tasks[a]).id < self@.next_id by {
                    assert(pre.periodic_tasks[a].id < pre.next_id);
                }
                Ok(r)
            },
            None => {
                assert(!self@.has_periodic_task(task.id));
                Err(QueueError::NotFound)
            },
        }
    }

    /// Sets the state of the row with this id, and its error message when one
    /// is given.
    fn update_row(&mut self, id: u128, state: FangTaskState, error: Option<String>, now: i64) -> (r:
        Result<Task, QueueError>)
        requires
            old(self)@.wf(),
        ensures
            final(self)@.wf(),
            row_update_post(old(self)@, id, state, error, now, final(self)@, r),
    {
        match task_position(&self.tasks, id) {
            Some(i) => {
                let mut t = copy_task(&self.tasks[i]);
                match error {
                    Some(m) => {
                        t.state = FangTaskState::Failed;
                        t.error_message = Some(m);
                    },
                    None => {
                        t.state = state;
                    },
                }
                t.updated_at = now;
                let r = copy_task(&t);
                self.tasks.set(i, t);
                assert(self@.tasks =~= old(self)@.tasks.update(i as int, r));
                proof { lemma_update_keeps_wf(old(self)@, i as int, r); }
                Ok(r)
            },
            None => {
                assert forall|j: int| 0 <= j < self@.tasks.len() implies (
                #[trigger] self@.tasks[j]).id != id by {}
                Err(QueueError::NotFound)
            },
        }
    }
}

/// Replacing a row by one with the same id keeps the tables well formed.
proof fn lemma_update_keeps_wf(q: QueueView, i: int, t: Task)
    requires
        q.wf(),
        0 <= i < q.tasks.len(),
        t.id == q.tasks[i].id,
    ensures
        (QueueView { tasks: q.tasks.update(i, t), ..q }).wf(),
{
    let u = q.tasks.update(i, t);
    assert forall|a: int, b: int| 0 <= a < b < u.len() implies (#[trigger] u[a]).id != (
    #[trigger] u[b]).id by {
        assert(q.tasks[a].id != q.tasks[b].id);
    }
    assert forall|a: int| 0 <= a < u.len() implies (#[trigger] u[a]).id < q.next_id by {
        assert(q.tasks[a].id < q.next_id);
    }
}

/// Two claims in a row never return the same row: the first leaves its row
/// `InProgress`, and a claim only takes `New` rows.
pub proof fn lemma_claims_are_disjoint(
    q0: QueueView,
    type1: Option<Seq<char>>,
    now1: i64,
    q1: QueueView,
    t1: Task,
    type2: Option<Seq<char>>,
    now2: i64,
    q2: QueueView,
    t2: Task,
)
    requires
        q0.wf(),
        fetch_and_touch_post(q0, type1, now1, q1, Ok(Some(t1))),
        fetch_and_touch_post(q1, type2, now2, q2, Ok(Some(t2))),
    ensures
        t1.id != t2.id,
{
    let i = choose|i: int|
        #[trigger] is_next_task(q0.tasks, i, type1, Seq::empty()) && t1 == with_state(
            q0.tasks[i],
            FangTaskState::InProgress,
            now1,
        ) && q1 == (QueueView { tasks: q0.tasks.update(i, t1), ..q0 });
    let j = choose|j: int|
        #[trigger] is_next_task(q1.tasks, j, type2, Seq::empty()) && t2 == with_state(
            q1.tasks[j],
            FangTaskState::InProgress,
            now2,
        ) && q2 == (QueueView { tasks: q1.tasks.update(j, t2), ..q1 });
    if i != j {
        if i < j {
            assert(q0.tasks[i].id != q0.tasks[j].id);
        } else {
            assert(q0.tasks[j].id != q0.tasks[i].id);
        }
    }
}

/// A claim moves at most one row, from `New` to `InProgress`, and keeps every
/// other row as it was.
pub proof fn lemma_claim_follows_lifecycle(
    q0: QueueView,
    task_type: Option<Seq<char>>,
    now: i64,
    q1: QueueView,
    r: Result<Option<Task>, QueueError>,
)
    requires
        fetch_and_touch_post(q0, task_type, now, q1, r),
    ensures
        q1.tasks.len() == q0.tasks.len(),
        forall|i: int|
            0 <= i < q0.tasks.len() ==> (#[trigger] q1.tasks[i]).id == q0.tasks[i].id && (
            q1.tasks[i].state == q0.tasks[i].state || lifecycle_step(
                q0.tasks[i].state,
                q1.tasks[i].state,
            )),
{
}

/// Pushing two jobs of identical metadata one after the other returns the same
/// row both times, and the second push changes nothing.
pub proof fn lemma_push_task_idempotent(
    q0: QueueView,
    job1: NewTask,
    now1: i64,
    q1: QueueView,
    t1: Task,
    job2: NewTask,
    now2: i64,
    q2: QueueView,
    t2: Task,
)
    requires
        q0.wf(),
        job1.metadata@ == job2.metadata@,
        push_task_post(q0, job1, now1, q1, Ok(t1)),
        push_task_post(q1, job2, now2, q2, Ok(t2)),
    ensures
        t1.id == t2.id,
        q2 == q1,
{
    let m = job1.metadata@;
    if exists|i: int| 0 <= i < q0.tasks.len() && #[trigger] is_active_match(q0.tasks[i], m) {
        let i = choose|i: int|
            #[trigger] is_first_active_match(q0.tasks, i, m) && t1 == q0.tasks[i];
        assert(is_active_match(q1.tasks[i], m));
        let j = choose|j: int|
            #[trigger] is_first_active_match(q1.tasks, j, m) && t2 == q1.tasks[j];
        if i < j {
            assert(!is_active_match(q1.tasks[i], m));
        } else if j < i {
            assert(!is_active_match(q0.tasks[j], m));
        }
    } else {
        let n = q0.tasks.len() as int;
        assert(q1.tasks[n] == t1);
        assert(is_active_match(q1.tasks[n], m));
        let j = choose|j: int|
            #[trigger] is_first_active_match(q1.tasks, j, m) && t2 == q1.tasks[j];
        if j < n {
            assert(q1.tasks[j] == q0.tasks[j]);
            assert(!is_active_match(q0.tasks[j], m));
        }
    }
}

/// Pushing two periodic jobs of identical metadata one after the other returns
/// the same row both times, whatever its state, and the second push changes
/// nothing.
pub proof fn lemma_push_periodic_task_idempotent(
    q0: QueueView,
    job1: NewPeriodicTask,
    now1: i64,
    q1: QueueView,
    t1: PeriodicTask,
    job2: NewPeriodicTask,
    now2: i64,
    q2: QueueView,
    t2: PeriodicTask,
)
    requires
        q0.wf(),
        job1.metadata@ == job2.metadata@,
        push_periodic_task_post(q0, job1, now1, q1, Ok(t1)),
        push_periodic_task_post(q1, job2, now2, q2, Ok(t2)),
    ensures
        t1.id == t2.id,
        q2 == q1,
{
    let m = job1.metadata@;
    if exists|i: int| 0 <= i < q0.periodic_tasks.len() && (#[trigger] q0.periodic_tasks[i]).metadata@ == m {
        let i = choose|i: int|
            #[trigger] is_first_periodic_match(q0.periodic_tasks, i, m) && t1 == q0.periodic_tasks[i];
        assert(q1.periodic_tasks[i].metadata@ == m);
        let j = choose|j: int|
            #[trigger] is_first_periodic_match(q1.periodic_tasks, j, m) && t2 == q1.periodic_tasks[j];
        if i < j {
            assert(q1.periodic_tasks[i].metadata@ != m);
        } else if j < i {
            assert(q0.periodic_tasks[j].metadata@ != m);
        }
    } else {
        let n = q0.periodic_tasks.len() as int;
        assert(q1.periodic_tasks[n] == t1);
        assert(q1.periodic_tasks[n].metadata@ == m);
        let j = choose|j: int|
            #[trigger] is_first_periodic_match(q1.periodic_tasks, j, m) && t2 == q1.periodic_tasks[j];
        if j < n {
            assert(q1.periodic_tasks[j] == q0.periodic_tasks[j]);
        }
    }
}

/// Two concurrent sessions never take the same row: once the first holds its
/// row locked, the second session, which skips locked rows, takes another one
/// or none.
pub proof fn lemma_locked_claims_are_disjoint(
    rows: Seq<Task>,
    i: int,
    type1: Option<Seq<char>>,
    locked1: Seq<u128>,
    j: int,
    type2: Option<Seq<char>>,
    locked2: Seq<u128>,
)
    requires
        is_next_task(rows, i, type1, locked1),
        is_next_task(rows, j, type2, locked2),
        locked2.contains(rows[i].id),
    ensures
        i != j,
        rows[i].id != rows[j].id,
{
}

} // verus!
