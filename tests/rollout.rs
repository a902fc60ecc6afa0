use shelltide::rollout::{
    build_failure_message, get_status_summary, is_all_not_started, PollAction, PollEvent, Rollout, RolloutError,
    RolloutPoller, RolloutTask, Stage, TaskStatus,
};

fn task(name: &str, status: TaskStatus) -> RolloutTask {
    RolloutTask { name: name.to_string(), status, target: format!("instances/i/databases/{}", name) }
}

fn rollout(stages: Vec<Vec<(&str, TaskStatus)>>) -> Rollout {
    Rollout {
        name: "projects/p/rollouts/1".to_string(),
        stages: stages
            .into_iter()
            .map(|ts| Stage { tasks: ts.into_iter().map(|(n, s)| task(n, s)).collect() })
            .collect(),
    }
}


#[test]
fn completion_and_success() {
    let r = rollout(vec![vec![("a", TaskStatus::Done)], vec![("b", TaskStatus::Skipped)]]);
    assert!(r.is_complete() && r.is_success());
    let r = rollout(vec![vec![("a", TaskStatus::Done), ("b", TaskStatus::Canceled)]]);
    assert!(r.is_complete() && !r.is_success());
    let r = rollout(vec![vec![("a", TaskStatus::Done)], vec![("b", TaskStatus::Running)]]);
    assert!(!r.is_complete() && !r.is_success());
    let r = rollout(vec![vec![("a", TaskStatus::Failed)]]);
    assert!(r.is_complete() && !r.is_success());
    let r = rollout(vec![]);
    assert!(r.is_complete() && r.is_success());
    for s in [TaskStatus::NotStarted, TaskStatus::Pending, TaskStatus::Running] {
        assert!(!s.is_terminal());
    }
    for s in [TaskStatus::Done, TaskStatus::Failed, TaskStatus::Canceled, TaskStatus::Skipped] {
        assert!(s.is_terminal());
    }
}

#[test]
fn status_parsing() {
    assert_eq!(TaskStatus::parse("NOT_STARTED"), Some(TaskStatus::NotStarted));
    assert_eq!(TaskStatus::parse("CANCELED"), Some(TaskStatus::Canceled));
    assert_eq!(TaskStatus::parse("SKIPPED"), Some(TaskStatus::Skipped));
    assert_eq!(TaskStatus::parse("STATUS_UNKNOWN"), None);
}

#[test]
fn not_started_detection() {
    assert!(is_all_not_started(&rollout(vec![vec![("a", TaskStatus::NotStarted)], vec![("b", TaskStatus::NotStarted)]])));
    assert!(!is_all_not_started(&rollout(vec![vec![("a", TaskStatus::NotStarted), ("b", TaskStatus::Pending)]])));
    assert!(!is_all_not_started(&rollout(vec![vec![]])));
}

#[test]
fn summary_text() {
    let r = rollout(vec![vec![("a", TaskStatus::Done), ("b", TaskStatus::Done), ("c", TaskStatus::Running)], vec![("d", TaskStatus::Canceled), ("e", TaskStatus::NotStarted)]]);
    assert_eq!(get_status_summary(&r), "[3/5] 2 done, 1 running, 1 not started, 1 other");
    let r = rollout(vec![vec![("a", TaskStatus::Pending), ("b", TaskStatus::Failed)]]);
    assert_eq!(get_status_summary(&r), "[1/2] 1 pending, 1 failed");
    assert_eq!(get_status_summary(&rollout(vec![])), "No tasks");
}

#[test]
fn failure_message_text() {
    let r = rollout(vec![vec![("a", TaskStatus::Failed), ("b", TaskStatus::Done)], vec![("c", TaskStatus::Failed)]]);
    assert_eq!(
        build_failure_message(&r),
        "Rollout failed. 2 task(s) failed: Task 'a' (target: instances/i/databases/a); Task 'c' (target: instances/i/databases/c)"
    );
    let r = rollout(vec![vec![("a", TaskStatus::Canceled)]]);
    assert_eq!(build_failure_message(&r), "Rollout failed with unknown error");
}

#[test]
fn stuck_after_sixty_one_seconds() {
    let mut p = RolloutPoller::new();
    let r = rollout(vec![vec![("a", TaskStatus::NotStarted), ("b", TaskStatus::NotStarted)]]);
    match p.step(PollEvent::Fetched { rollout: r, elapsed_ms: 61_000 }) {
        PollAction::Finished(Err(RolloutError::StuckTimeout { elapsed_ms, tasks })) => {
            assert_eq!(elapsed_ms, 61_000);
            assert_eq!(tasks.len(), 2);
        }
        other => panic!("unexpected {:?}", other),
    }
}

#[test]
fn running_task_at_fifty_nine_seconds_keeps_waiting() {
    let mut p = RolloutPoller::new();
    let r = rollout(vec![vec![("a", TaskStatus::NotStarted), ("b", TaskStatus::NotStarted)]]);
    assert!(matches!(p.step(PollEvent::Fetched { rollout: r, elapsed_ms: 30_000 }), PollAction::Wait { delay_ms: 2000, .. }));
    let r = rollout(vec![vec![("a", TaskStatus::Running), ("b", TaskStatus::NotStarted)]]);
    match p.step(PollEvent::Fetched { rollout: r, elapsed_ms: 59_000 }) {
        PollAction::Wait { delay_ms, summary } => {
            assert_eq!(delay_ms, 2000);
            assert_eq!(summary, "[0/2] 1 running, 1 not started");
        }
        other => panic!("unexpected {:?}", other),
    }
    // once a task has moved, the timeout no longer applies
    let r = rollout(vec![vec![("a", TaskStatus::Running), ("b", TaskStatus::NotStarted)]]);
    assert!(matches!(p.step(PollEvent::Fetched { rollout: r, elapsed_ms: 120_000 }), PollAction::Wait { .. }));
    // exactly sixty seconds is not yet past the timeout
    let r = rollout(vec![vec![("a", TaskStatus::NotStarted)]]);
    assert!(matches!(p.step(PollEvent::Fetched { rollout: r, elapsed_ms: 60_000 }), PollAction::Wait { .. }));
}

#[test]
fn four_fetch_failures_then_success() {
    let mut p = RolloutPoller::new();
    for attempt in 1..=4u32 {
        match p.step(PollEvent::FetchFailed(format!("network {}", attempt))) {
            PollAction::Retry { delay_ms, attempt: a } => {
                assert_eq!(delay_ms, 1000);
                assert_eq!(a, attempt);
            }
            other => panic!("unexpected {:?}", other),
        }
    }
    let r = rollout(vec![vec![("a", TaskStatus::Done)]]);
    match p.step(PollEvent::Fetched { rollout: r, elapsed_ms: 5_000 }) {
        PollAction::Finished(Ok(r)) => assert!(r.is_success()),
        other => panic!("unexpected {:?}", other),
    }
    assert_eq!(p.failed_attempts, 0);
}

#[test]
fn five_fetch_failures_give_backend_error() {
    let mut p = RolloutPoller::new();
    for attempt in 1..=4u32 {
        assert!(matches!(p.step(PollEvent::FetchFailed(format!("e{}", attempt))), PollAction::Retry { .. }));
    }
    match p.step(PollEvent::FetchFailed("e5".to_string())) {
        PollAction::Finished(Err(RolloutError::Backend(m))) => assert_eq!(m, "e5"),
        other => panic!("unexpected {:?}", other),
    }
}

#[test]
fn failed_rollout_reports_failed_tasks() {
    let mut p = RolloutPoller::new();
    let r = rollout(vec![vec![("a", TaskStatus::Failed), ("b", TaskStatus::Done)]]);
    match p.step(PollEvent::Fetched { rollout: r, elapsed_ms: 4_000 }) {
        PollAction::Finished(Err(RolloutError::Failed { message, tasks })) => {
            assert_eq!(tasks.len(), 1);
            assert_eq!(tasks[0].name, "a");
            assert!(message.starts_with("Rollout failed. 1 task(s) failed"));
        }
        other => panic!("unexpected {:?}", other),
    }
}
