use fang::{worker_name, RetentionMode, SleepParams, WorkerParams, WorkerPool, WorkerThread};

#[test]
fn worker_names_follow_type_and_index() {
    assert_eq!(worker_name(&None, 1), "worker_1");
    assert_eq!(worker_name(&Some("type1".to_string()), 12), "worker_type112");
    assert_eq!(worker_name(&None, 4294967295), "worker_4294967295");
    assert_eq!(worker_name(&None, 0), "worker_0");
}

#[test]
fn pool_spawns_one_name_per_worker() {
    let mut params = WorkerParams::new();
    params.set_task_type("mail".to_string());
    let pool = WorkerPool::new_with_params(3, params);
    assert_eq!(pool.worker_names(), vec!["worker_mail1", "worker_mail2", "worker_mail3"]);
    assert!(WorkerPool::new(0).worker_names().is_empty());
}

#[test]
fn worker_params_configure_the_executor() {
    let params = WorkerParams::new();
    let executor = params.executor();
    assert_eq!(executor.retention_mode, RetentionMode::RemoveFinished);
    assert_eq!(executor.sleep_params, SleepParams::default());
    assert!(executor.task_type.is_none());

    let mut params = WorkerParams::default();
    params.set_retention_mode(RetentionMode::KeepAll);
    let sleep = SleepParams { sleep_period: 1, min_sleep_period: 1, max_sleep_period: 2, sleep_step: 1 };
    params.set_sleep_params(sleep);
    params.set_task_type("type1".to_string());
    let executor = params.executor();
    assert_eq!(executor.retention_mode, RetentionMode::KeepAll);
    assert_eq!(executor.sleep_params, sleep);
    assert_eq!(executor.task_type, Some("type1".to_string()));
}

#[test]
fn crashed_worker_is_restarted_under_its_name() {
    let mut worker = WorkerThread::new("worker_1".to_string(), 0);
    worker.record_exit(false);
    let next = worker.restart().unwrap();
    assert_eq!(next.name, "worker_1");
    assert_eq!(next.restarts, 1);
    assert!(!next.graceful_shutdown);
    let mut last = WorkerThread::new("worker_2".to_string(), u64::MAX);
    last.record_exit(false);
    assert_eq!(last.restart().unwrap().restarts, u64::MAX);
}

#[test]
fn gracefully_stopped_worker_is_not_restarted() {
    let mut worker = WorkerThread::new("worker_1".to_string(), 3);
    worker.record_exit(true);
    assert!(worker.restart().is_none());
}
