//! A durable background-job framework: the task tables and their claim
//! protocol, the executor's decisions and retention policy, the worker
//! supervisor's plan and the periodic scheduler.
pub mod executor;
pub mod queue;
pub mod scheduler;
pub mod schema;
pub mod worker_pool;

pub use executor::{
    finalize_action, Error, Executor, FetchOutcome, FinalizeAction, LoopAction, RetentionMode,
    SleepParams, TaskError,
};
pub use queue::{
    next_task_index, NewPeriodicTask, NewTask, PeriodicTask, Queue, QueueError, Task,
    MICROS_PER_SECOND,
};
pub use scheduler::Scheduler;
pub use schema::FangTaskState;
pub use worker_pool::{worker_name, WorkerParams, WorkerPool, WorkerState, WorkerThread};
