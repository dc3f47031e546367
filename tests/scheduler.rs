use fang::{NewPeriodicTask, NewTask, PeriodicTask, Queue, Scheduler, MICROS_PER_SECOND};

const NOW: i64 = 1_700_000_000 * MICROS_PER_SECOND;

fn job_of(task: &PeriodicTask) -> NewTask {
    NewTask { metadata: task.metadata.clone(), task_type: "schedule".to_string() }
}

#[test]
fn periodic_task_materializes_after_its_period() {
    let mut queue = Queue::new();
    let periodic = queue
        .push_periodic_task(
            &NewPeriodicTask { metadata: "{\"type\":\"ScheduledJob\"}".to_string(), period_in_seconds: 60 },
            NOW,
        )
        .unwrap();
    let mut scheduler = Scheduler::new(10, 2, queue);

    let first = scheduler.schedule_at(&job_of, NOW);
    assert_eq!(first.len(), 1);
    assert!(first[0].as_ref().unwrap().is_none());
    assert!(scheduler.queue.fetch_task(&None).is_none());
    let row = scheduler.queue.find_periodic_task_by_id(periodic.id).unwrap();
    assert_eq!(row.scheduled_at, Some(NOW + 60 * MICROS_PER_SECOND));

    let later = NOW + 60 * MICROS_PER_SECOND;
    let second = scheduler.schedule_at(&job_of, later);
    assert_eq!(second.len(), 1);
    let pushed = second[0].as_ref().unwrap().as_ref().unwrap().clone();
    assert_eq!(pushed.metadata, "{\"type\":\"ScheduledJob\"}");
    assert_eq!(pushed.task_type, "schedule");
    let row = scheduler.queue.find_periodic_task_by_id(periodic.id).unwrap();
    assert_eq!(row.scheduled_at, Some(NOW + 120 * MICROS_PER_SECOND));
    assert_eq!(scheduler.queue.fetch_task(&None).unwrap().id, pushed.id);
}

#[test]
fn scan_skips_rows_outside_the_margin() {
    let mut queue = Queue::new();
    let periodic = queue
        .push_periodic_task(&NewPeriodicTask { metadata: "far".to_string(), period_in_seconds: 3600 }, NOW)
        .unwrap();
    let mut scheduler = Scheduler::new(10, 2, queue);
    scheduler.schedule_at(&job_of, NOW);
    let results = scheduler.schedule_at(&job_of, NOW + 10 * MICROS_PER_SECOND);
    assert!(results.is_empty());
    let row = scheduler.queue.find_periodic_task_by_id(periodic.id).unwrap();
    assert_eq!(row.scheduled_at, Some(NOW + 3600 * MICROS_PER_SECOND));
}

#[test]
fn scan_at_current_time_seeds_first_firing() {
    let mut queue = Queue::new();
    let periodic = queue
        .push_periodic_task(&NewPeriodicTask { metadata: "x".to_string(), period_in_seconds: 10 }, 0)
        .unwrap();
    let mut scheduler = Scheduler::new(1, 2, queue);
    let results = scheduler.schedule(&job_of);
    assert_eq!(results.len(), 1);
    let at = scheduler.queue.find_periodic_task_by_id(periodic.id).unwrap().scheduled_at.unwrap();
    // the clock reads a time after 2020 in microseconds
    assert!(at > 1_577_836_800 * MICROS_PER_SECOND);
}

#[test]
fn process_task_pushes_job_once_fired() {
    let mut queue = Queue::new();
    let periodic = queue
        .push_periodic_task(&NewPeriodicTask { metadata: "p".to_string(), period_in_seconds: 5 }, NOW)
        .unwrap();
    let mut scheduler = Scheduler::new(1, 2, queue);
    assert!(scheduler.process_task(&periodic, &job_of(&periodic), NOW).unwrap().is_none());
    let fired = scheduler.queue.find_periodic_task_by_id(periodic.id).unwrap();
    let pushed = scheduler.process_task(&fired, &job_of(&fired), NOW + 5 * MICROS_PER_SECOND).unwrap().unwrap();
    assert_eq!(pushed.metadata, "p");
}
