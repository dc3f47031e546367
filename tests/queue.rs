use fang::{
    next_task_index, FangTaskState, NewPeriodicTask, NewTask, PeriodicTask, Queue, QueueError,
    Task, MICROS_PER_SECOND,
};

const NOW: i64 = 1_700_000_000 * MICROS_PER_SECOND;
const HOUR: i64 = 3600 * MICROS_PER_SECOND;

fn new_task(metadata: &str, task_type: &str) -> NewTask {
    NewTask { metadata: metadata.to_string(), task_type: task_type.to_string() }
}

fn job_metadata(number: u64) -> String {
    let mut m = serde_json::value::Map::new();
    m.insert("number".to_string(), serde_json::value::Value::Number(number.into()));
    m.insert("type".to_string(), serde_json::value::Value::String("Job".to_string()));
    serde_json::to_string(&serde_json::value::Value::Object(m)).unwrap()
}

fn insert_job(queue: &mut Queue, metadata: &str, timestamp: i64) -> Task {
    queue.insert(&new_task(metadata, "common"), timestamp).unwrap()
}

fn insert_new_job(queue: &mut Queue) -> Task {
    insert_job(queue, "true", NOW)
}

fn insert_periodic_job(queue: &mut Queue, metadata: &str, timestamp: i64, period_in_seconds: i32) -> PeriodicTask {
    let task = queue
        .push_periodic_task(
            &NewPeriodicTask { metadata: metadata.to_string(), period_in_seconds },
            timestamp,
        )
        .unwrap();
    let scan = timestamp - period_in_seconds as i64 * MICROS_PER_SECOND;
    queue.schedule_next_task_execution(&task, scan).unwrap()
}

#[test]
fn insert_inserts_task() {
    let mut queue = Queue::new();
    let result = queue.insert(&new_task("true", "common"), NOW).unwrap();
    assert_eq!(result.state, FangTaskState::New);
    assert_eq!(result.error_message, None);
    assert_eq!(result.task_type, "common");
    assert_eq!(result.created_at, NOW);
    assert_eq!(result.updated_at, NOW);
}

#[test]
fn fetch_task_fetches_the_oldest_task() {
    let mut queue = Queue::new();
    let task1 = insert_job(&mut queue, "true", NOW - 40 * HOUR);
    insert_job(&mut queue, "false", NOW - 20 * HOUR);
    let found_task = queue.fetch_task(&None).unwrap();
    assert_eq!(found_task.id, task1.id);
}

#[test]
fn fetch_task_prefers_older_row_inserted_later() {
    let mut queue = Queue::new();
    insert_job(&mut queue, "false", NOW - 20 * HOUR);
    let older = insert_job(&mut queue, "true", NOW - 40 * HOUR);
    assert_eq!(queue.fetch_task(&None).unwrap().id, older.id);
}

#[test]
fn fetch_task_is_fifo_within_one_worker() {
    let mut queue = Queue::new();
    let a = insert_job(&mut queue, "true", NOW - 40 * HOUR);
    let b = insert_job(&mut queue, "false", NOW - 20 * HOUR);
    assert_eq!(queue.fetch_task(&None).unwrap().id, a.id);
    queue.finish_task(&a, NOW).unwrap();
    assert_eq!(queue.fetch_task(&None).unwrap().id, b.id);
}

#[test]
fn fetch_task_skips_locked_rows() {
    let mut queue = Queue::new();
    let a = insert_job(&mut queue, "{\"number\":12}", NOW - 40 * HOUR);
    let b = insert_job(&mut queue, "{\"number\":11}", NOW - 20 * HOUR);
    let t1 = queue.fetch_task(&None).unwrap();
    assert_eq!(t1.id, a.id);
    let t2 = queue.fetch_task_skipping(&None, &vec![t1.id]).unwrap();
    assert_eq!(t2.id, b.id);
    assert!(queue.fetch_task_skipping(&None, &vec![a.id, b.id]).is_none());
    // the first session rolled back: the older row is free again
    assert_eq!(queue.fetch_task(&None).unwrap().id, a.id);
}

#[test]
fn next_task_index_filters_by_type_and_state() {
    let mut queue = Queue::new();
    let t1 = queue.insert(&new_task("1", "type1"), NOW - 3 * HOUR).unwrap();
    let t2 = queue.insert(&new_task("2", "type2"), NOW - 2 * HOUR).unwrap();
    let t3 = queue.insert(&new_task("3", "type2"), NOW - HOUR).unwrap();
    queue.start_processing_task(&t2, NOW).unwrap();
    let rows = vec![
        queue.find_task_by_id(t1.id).unwrap(),
        queue.find_task_by_id(t2.id).unwrap(),
        queue.find_task_by_id(t3.id).unwrap(),
    ];
    assert_eq!(next_task_index(&rows, &None, &vec![]), Some(0));
    assert_eq!(next_task_index(&rows, &Some("type2".to_string()), &vec![]), Some(2));
    assert_eq!(next_task_index(&rows, &Some("type3".to_string()), &vec![]), None);
    assert_eq!(next_task_index(&rows, &None, &vec![t1.id, t3.id]), None);
    assert_eq!(next_task_index(&vec![], &None, &vec![]), None);
}

#[test]
fn finish_task_updates_state_field() {
    let mut queue = Queue::new();
    let task = insert_new_job(&mut queue);
    let updated_task = queue.finish_task(&task, NOW + 5).unwrap();
    assert_eq!(FangTaskState::Finished, updated_task.state);
    assert_eq!(NOW + 5, updated_task.updated_at);
    assert_eq!(NOW, updated_task.created_at);
}

#[test]
fn fail_task_updates_state_field_and_sets_error_message() {
    let mut queue = Queue::new();
    let task = insert_new_job(&mut queue);
    let error = "Failed".to_string();
    let updated_task = queue.fail_task(&task, error.clone(), NOW).unwrap();
    assert_eq!(FangTaskState::Failed, updated_task.state);
    assert_eq!(error, updated_task.error_message.unwrap());
}

#[test]
fn update_of_missing_row_is_not_found() {
    let mut queue = Queue::new();
    let task = insert_new_job(&mut queue);
    queue.remove_task(task.id).unwrap();
    assert_eq!(queue.finish_task(&task, NOW).unwrap_err(), QueueError::NotFound);
    assert_eq!(queue.fail_task(&task, "x".to_string(), NOW).unwrap_err(), QueueError::NotFound);
    assert_eq!(queue.start_processing_task(&task, NOW).unwrap_err(), QueueError::NotFound);
}

#[test]
fn fetch_and_touch_updates_state() {
    let mut queue = Queue::new();
    let _task = insert_new_job(&mut queue);
    let updated_task = queue.fetch_and_touch(&None, NOW + 1).unwrap().unwrap();
    assert_eq!(FangTaskState::InProgress, updated_task.state);
    assert_eq!(NOW + 1, updated_task.updated_at);
    assert_eq!(
        FangTaskState::InProgress,
        queue.find_task_by_id(updated_task.id).unwrap().state
    );
}

#[test]
fn fetch_and_touch_returns_none() {
    let mut queue = Queue::new();
    let task = queue.fetch_and_touch(&None, NOW).unwrap();
    assert!(task.is_none());
}

#[test]
fn fetch_and_touch_never_claims_a_row_twice() {
    let mut queue = Queue::new();
    insert_job(&mut queue, "a", NOW - 2 * HOUR);
    insert_job(&mut queue, "b", NOW - HOUR);
    let first = queue.fetch_and_touch(&None, NOW).unwrap().unwrap();
    let second = queue.fetch_and_touch(&None, NOW).unwrap().unwrap();
    assert_ne!(first.id, second.id);
    assert!(queue.fetch_and_touch(&None, NOW).unwrap().is_none());
}

#[test]
fn push_task_serializes_and_inserts_task() {
    let mut queue = Queue::new();
    let task = queue.push_task(&new_task(&job_metadata(10), "common"), NOW).unwrap();
    let mut m = serde_json::value::Map::new();
    m.insert("number".to_string(), serde_json::value::Value::Number(10.into()));
    m.insert("type".to_string(), serde_json::value::Value::String("Job".to_string()));
    let stored: serde_json::Value = serde_json::from_str(&task.metadata).unwrap();
    assert_eq!(stored, serde_json::value::Value::Object(m));
}

#[test]
fn push_task_does_not_insert_the_same_task() {
    let mut queue = Queue::new();
    let job = new_task(&job_metadata(10), "common");
    let task2 = queue.push_task(&job, NOW).unwrap();
    let task1 = queue.push_task(&job, NOW + 1).unwrap();
    assert_eq!(task1.id, task2.id);
}

#[test]
fn push_task_inserts_again_after_terminal_state() {
    let mut queue = Queue::new();
    let job = new_task(&job_metadata(10), "common");
    let first = queue.push_task(&job, NOW).unwrap();
    queue.finish_task(&first, NOW).unwrap();
    let second = queue.push_task(&job, NOW + 1).unwrap();
    assert_ne!(first.id, second.id);
    assert_eq!(second.state, FangTaskState::New);
}

#[test]
fn push_periodic_task() {
    let mut queue = Queue::new();
    let job = NewPeriodicTask { metadata: job_metadata(10), period_in_seconds: 60 };
    let task = queue.push_periodic_task(&job, NOW).unwrap();
    assert_eq!(task.period_in_seconds, 60);
    assert_eq!(task.scheduled_at, None);
    assert!(queue.find_periodic_task_by_id(task.id).is_some());
}

#[test]
fn push_periodic_task_returns_existing_job() {
    let mut queue = Queue::new();
    let job = NewPeriodicTask { metadata: job_metadata(10), period_in_seconds: 60 };
    let task1 = queue.push_periodic_task(&job, NOW).unwrap();
    let task2 = queue.push_periodic_task(&job, NOW).unwrap();
    assert_eq!(task1.id, task2.id);
}

#[test]
fn push_periodic_task_rejects_non_positive_period() {
    let mut queue = Queue::new();
    let job = NewPeriodicTask { metadata: job_metadata(10), period_in_seconds: 0 };
    assert_eq!(queue.push_periodic_task(&job, NOW).unwrap_err(), QueueError::InvalidPeriod);
}

#[test]
fn fetch_periodic_tasks_fetches_periodic_task_without_scheduled_at() {
    let mut queue = Queue::new();
    let job = NewPeriodicTask { metadata: job_metadata(10), period_in_seconds: 60 };
    let task = queue.push_periodic_task(&job, NOW).unwrap();
    insert_periodic_job(&mut queue, "true", NOW + 100 * HOUR, 100);
    let tasks = queue.fetch_periodic_tasks(100, NOW).unwrap();
    assert_eq!(tasks.len(), 1);
    assert_eq!(tasks[0].id, task.id);
}

#[test]
fn schedule_next_task_execution() {
    let mut queue = Queue::new();
    let task = insert_periodic_job(&mut queue, "true", NOW, 100);
    assert_eq!(task.scheduled_at, Some(NOW));
    let updated_task = queue.schedule_next_task_execution(&task, NOW).unwrap();
    let next_schedule = task.scheduled_at.unwrap() + task.period_in_seconds as i64 * MICROS_PER_SECOND;
    assert_eq!(next_schedule, updated_task.scheduled_at.unwrap());
    assert_eq!(NOW, updated_task.updated_at);
}

#[test]
fn schedule_next_task_execution_reports_overflow() {
    let mut queue = Queue::new();
    let task = insert_periodic_job(&mut queue, "true", NOW, 100);
    assert_eq!(
        queue.schedule_next_task_execution(&task, i64::MAX - 5).unwrap_err(),
        QueueError::TimeOutOfRange
    );
    queue.remove_all_periodic_tasks().unwrap();
    assert_eq!(
        queue.schedule_next_task_execution(&task, NOW).unwrap_err(),
        QueueError::NotFound
    );
}

#[test]
fn remove_all_periodic_tasks() {
    let mut queue = Queue::new();
    let task = insert_periodic_job(&mut queue, "true", NOW, 100);
    let result = queue.remove_all_periodic_tasks().unwrap();
    assert_eq!(1, result);
    assert!(queue.find_periodic_task_by_id(task.id).is_none());
}

#[test]
fn remove_all_tasks() {
    let mut queue = Queue::new();
    let task = insert_job(&mut queue, "true", NOW);
    let result = queue.remove_all_tasks().unwrap();
    assert_eq!(1, result);
    assert!(queue.find_task_by_id(task.id).is_none());
}

#[test]
fn fetch_periodic_tasks() {
    let mut queue = Queue::new();
    insert_periodic_job(&mut queue, "true", NOW + 100 * HOUR, 100);
    let task = insert_periodic_job(&mut queue, "false", NOW, 100);
    let tasks = queue.fetch_periodic_tasks(100, NOW).unwrap();
    assert_eq!(tasks.len(), 1);
    assert_eq!(tasks[0].id, task.id);
}

#[test]
fn fetch_periodic_tasks_includes_both_window_ends() {
    let mut queue = Queue::new();
    let low = insert_periodic_job(&mut queue, "low", NOW - 100 * MICROS_PER_SECOND, 10);
    let high = insert_periodic_job(&mut queue, "high", NOW + 100 * MICROS_PER_SECOND, 10);
    insert_periodic_job(&mut queue, "late", NOW + 100 * MICROS_PER_SECOND + 1, 10);
    let tasks = queue.fetch_periodic_tasks(100, NOW).unwrap();
    assert_eq!(tasks.len(), 2);
    assert_eq!(tasks[0].id, low.id);
    assert_eq!(tasks[1].id, high.id);
}

#[test]
fn remove_task() {
    let mut queue = Queue::new();
    let task1 = queue.insert(&new_task("true", "common"), NOW).unwrap();
    assert!(queue.find_task_by_id(task1.id).is_some());
    let task2 = queue.insert(&new_task("true", "common"), NOW).unwrap();
    assert!(queue.find_task_by_id(task2.id).is_some());
    queue.remove_task(task1.id).unwrap();
    assert!(queue.find_task_by_id(task1.id).is_none());
    assert!(queue.find_task_by_id(task2.id).is_some());
    queue.remove_task(task2.id).unwrap();
    assert!(queue.find_task_by_id(task2.id).is_none());
    assert_eq!(queue.remove_task(task2.id).unwrap(), 0);
}

#[test]
fn remove_task_of_type() {
    let mut queue = Queue::new();
    let task1 = queue.insert(&new_task("true", "type1"), NOW).unwrap();
    assert!(queue.find_task_by_id(task1.id).is_some());
    let task2 = queue.insert(&new_task("true", "type2"), NOW).unwrap();
    assert!(queue.find_task_by_id(task2.id).is_some());
    assert_eq!(queue.remove_tasks_of_type("type1").unwrap(), 1);
    assert!(queue.find_task_by_id(task1.id).is_none());
    assert!(queue.find_task_by_id(task2.id).is_some());
}

#[test]
fn state_labels_match_the_database_enum() {
    assert_eq!(FangTaskState::New.as_label(), "new");
    assert_eq!(FangTaskState::InProgress.as_label(), "in_progress");
    assert_eq!(FangTaskState::Finished.as_label(), "finished");
    assert_eq!(FangTaskState::Failed.as_label(), "failed");
    assert!(FangTaskState::Failed.is_terminal());
    assert!(!FangTaskState::InProgress.is_terminal());
}

#[test]
fn insert_then_finish_round_trip() {
    let mut queue = Queue::new();
    let task = queue.insert(&new_task("{\"n\":10,\"type\":\"J\"}", "common"), NOW).unwrap();
    assert_eq!(task.state, FangTaskState::New);
    assert_eq!(task.error_message, None);
    let finished = queue.finish_task(&task, NOW + 1).unwrap();
    assert_eq!(finished.state, FangTaskState::Finished);
    assert_eq!(finished.id, task.id);
    assert_eq!(finished.metadata, "{\"n\":10,\"type\":\"J\"}");
    assert_eq!(queue.find_task_by_id(task.id).unwrap().state, FangTaskState::Finished);
}
