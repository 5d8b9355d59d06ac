use pbtb_rust::config::ecs::LaunchTarget;
use pbtb_rust::domain::clock::MockClock;
use pbtb_rust::launcher::{
    LaunchError, LaunchFailure, LaunchReply, LaunchRequest, PlatformReply, StartedTask,
};
use pbtb_rust::memory_store::InMemoryStore;
use pbtb_rust::notification::{
    ContainerOverride, ContainerState, EnvEntry, StopDetail, StopNotification, TaskOverrides,
};
use pbtb_rust::reactor::{
    judge, step_at, Action, Event, EventReactor, FilterReason, Outcome, ReactorError,
    ReactorState, Verdict,
};
use pbtb_rust::store::{StoreError, StoreReply, TaskStatus};

fn target() -> LaunchTarget {
    LaunchTarget {
        cluster_id: "arn:cluster/bots".to_string(),
        task_definition: "arn:task-definition/passivbot:7".to_string(),
        container_name: "passivbot".to_string(),
    }
}

fn env(pairs: &[(&str, &str)]) -> Vec<EnvEntry> {
    pairs
        .iter()
        .map(|(n, v)| EnvEntry { name: Some(n.to_string()), value: Some(v.to_string()) })
        .collect()
}

fn stopped(exit_code: Option<i32>, stop_code: Option<&str>, pairs: &[(&str, &str)]) -> StopNotification {
    StopNotification {
        source: "container-orchestration".to_string(),
        detail_type: "task-state-change".to_string(),
        detail: Some(StopDetail {
            cluster_id: Some("arn:cluster/bots".to_string()),
            task_id: Some("arn:task/bots/old-task".to_string()),
            last_status: Some("STOPPED".to_string()),
            stop_code: stop_code.map(|s| s.to_string()),
            stopped_reason: Some("OutOfMemoryError: Container killed due to memory usage".to_string()),
            containers: Some(vec![ContainerState { name: Some("passivbot".to_string()), exit_code }]),
            overrides: Some(TaskOverrides {
                container_overrides: Some(vec![ContainerOverride {
                    name: Some("passivbot".to_string()),
                    environment: Some(env(pairs)),
                }]),
            }),
        }),
    }
}

fn killed_task() -> StopNotification {
    stopped(Some(137), Some("TaskFailedToStart"), &[("USER_ID", "u1"), ("BOT_ID", "b1")])
}

fn started(arn: &str) -> LaunchReply {
    LaunchReply::Answered(PlatformReply {
        tasks: vec![StartedTask { task_arn: Some(arn.to_string()) }],
        failures: vec![],
    })
}

struct Run {
    outcome: Outcome,
    launches: Vec<LaunchRequest>,
    writes: usize,
    steps: usize,
}

fn drive(
    notification: StopNotification,
    now: i64,
    platform: &mut dyn FnMut(&LaunchRequest) -> LaunchReply,
    store: &mut dyn FnMut(&pbtb_rust::store::TransactionWrite) -> StoreReply,
) -> Run {
    let target = target();
    let mut state = ReactorState::Idle;
    let mut event = Event::Notification(notification);
    let mut run = Run { outcome: Outcome::Restarted, launches: vec![], writes: 0, steps: 0 };
    loop {
        let (next, action) = step_at(&target, state, event, now);
        state = next;
        run.steps += 1;
        match action {
            Action::Launch(request) => {
                event = Event::Launched(platform(&request));
                run.launches.push(request);
            }
            Action::Save(write) => {
                run.writes += 1;
                event = Event::Stored(store(&write));
            }
            Action::Finish(outcome) => {
                assert!(state.is_done());
                run.outcome = outcome;
                return run;
            }
            Action::Nothing => panic!("the reactor asked for nothing before the end"),
        }
    }
}

fn drive_filtered(notification: StopNotification) -> Run {
    drive(
        notification,
        0,
        &mut |_| panic!("no launch call may be made"),
        &mut |_| panic!("no store write may be made"),
    )
}

#[test]
fn notification_from_another_source_is_discarded() {
    let mut n = killed_task();
    n.source = "billing".to_string();
    let run = drive_filtered(n);
    assert_eq!(run.outcome, Outcome::Filtered(FilterReason::NotApplicable));
    assert_eq!(run.outcome.into_result(), Ok(()));
    assert_eq!(run.launches.len(), 0);
    assert_eq!(run.writes, 0);
    assert_eq!(run.steps, 1);
}

#[test]
fn notification_of_another_kind_is_discarded() {
    let mut n = killed_task();
    n.detail_type = "service-action".to_string();
    let run = drive_filtered(n);
    assert_eq!(run.outcome, Outcome::Filtered(FilterReason::NotApplicable));
    assert_eq!(run.outcome.into_result(), Ok(()));
}

#[test]
fn source_and_kind_are_compared_exactly() {
    for (source, kind) in [
        ("Container-Orchestration", "task-state-change"),
        ("container-orchestration", "Task-State-Change"),
        ("container-orchestration ", "task-state-change"),
        ("", ""),
        ("task-state-change", "container-orchestration"),
    ] {
        let mut n = killed_task();
        n.source = source.to_string();
        n.detail_type = kind.to_string();
        assert_eq!(drive_filtered(n).outcome, Outcome::Filtered(FilterReason::NotApplicable));
    }
}

#[test]
fn foreign_notification_is_discarded_before_its_body_is_read() {
    let n = StopNotification { source: "billing".to_string(), detail_type: "invoice".to_string(), detail: None };
    assert_eq!(drive_filtered(n).outcome, Outcome::Filtered(FilterReason::NotApplicable));
}

#[test]
fn unreadable_body_is_filtered_not_fatal() {
    let n = StopNotification {
        source: "container-orchestration".to_string(),
        detail_type: "task-state-change".to_string(),
        detail: None,
    };
    let run = drive_filtered(n);
    assert_eq!(run.outcome, Outcome::Filtered(FilterReason::Unreadable));
    assert_eq!(run.outcome.into_result(), Ok(()));
}

#[test]
fn task_that_has_not_stopped_is_left_alone() {
    for status in [Some("PENDING"), Some("RUNNING"), Some("PROVISIONING"), Some("stopped"), Some(""), None] {
        let mut n = killed_task();
        n.detail.as_mut().unwrap().last_status = status.map(|s| s.to_string());
        let run = drive_filtered(n);
        assert_eq!(run.outcome, Outcome::Filtered(FilterReason::NotStopped));
        assert_eq!(run.outcome.into_result(), Ok(()));
        assert_eq!(run.launches.len(), 0);
        assert_eq!(run.writes, 0);
    }
}

#[test]
fn missing_user_id_aborts_without_launch() {
    let n = stopped(Some(137), Some("TaskFailedToStart"), &[("BOT_ID", "b1")]);
    let run = drive_filtered(n);
    assert_eq!(run.outcome, Outcome::Filtered(FilterReason::MissingIdentity));
    assert_eq!(run.launches.len(), 0);
}

#[test]
fn missing_bot_id_aborts_without_launch() {
    let n = stopped(Some(137), Some("TaskFailedToStart"), &[("USER_ID", "u1")]);
    let run = drive_filtered(n);
    assert_eq!(run.outcome, Outcome::Filtered(FilterReason::MissingIdentity));
    assert_eq!(run.outcome.into_result(), Ok(()));
}

#[test]
fn missing_overrides_abort_without_launch() {
    let mut n = killed_task();
    n.detail.as_mut().unwrap().overrides = None;
    assert_eq!(drive_filtered(n).outcome, Outcome::Filtered(FilterReason::MissingIdentity));
}

#[test]
fn no_containers_means_nothing_to_act_on() {
    let mut n = killed_task();
    n.detail.as_mut().unwrap().containers = Some(vec![]);
    assert_eq!(drive_filtered(n).outcome, Outcome::Filtered(FilterReason::NoContainers));
    let mut n = killed_task();
    n.detail.as_mut().unwrap().containers = None;
    assert_eq!(drive_filtered(n).outcome, Outcome::Filtered(FilterReason::NoContainers));
}

#[test]
fn identity_is_asked_for_before_containers() {
    let mut n = stopped(Some(137), Some("TaskFailedToStart"), &[]);
    n.detail.as_mut().unwrap().containers = None;
    assert_eq!(drive_filtered(n).outcome, Outcome::Filtered(FilterReason::MissingIdentity));
}

#[test]
fn only_the_first_container_is_inspected() {
    let mut n = killed_task();
    n.detail.as_mut().unwrap().containers = Some(vec![
        ContainerState { name: Some("passivbot".to_string()), exit_code: Some(0) },
        ContainerState { name: Some("sidecar".to_string()), exit_code: Some(137) },
    ]);
    assert_eq!(drive_filtered(n).outcome, Outcome::Filtered(FilterReason::NotRestartWorthy));
}

#[test]
fn container_without_exit_code_is_not_restarted() {
    let n = stopped(None, Some("TaskFailedToStart"), &[("USER_ID", "u1"), ("BOT_ID", "b1")]);
    assert_eq!(drive_filtered(n).outcome, Outcome::Filtered(FilterReason::NotRestartWorthy));
}

#[test]
fn killed_task_is_relaunched_once_and_recorded_once() {
    let mut store = InMemoryStore::new();
    store.register_bot("u1", "b1");
    let run = drive(
        killed_task(),
        1_700_000_000,
        &mut |_| started("arn:task/bots/new-task-1"),
        &mut |write| store.answer(write),
    );
    assert_eq!(run.outcome, Outcome::Restarted);
    assert_eq!(run.outcome.into_result(), Ok(()));
    assert_eq!(run.launches.len(), 1);
    let request = &run.launches[0];
    assert_eq!(request.cluster_id, "arn:cluster/bots");
    assert_eq!(request.task_definition, "arn:task-definition/passivbot:7");
    assert_eq!(request.container_name, "passivbot");
    assert_eq!(request.environment.len(), 2);
    assert_eq!((request.environment[0].name.as_str(), request.environment[0].value.as_str()), ("USER_ID", "u1"));
    assert_eq!((request.environment[1].name.as_str(), request.environment[1].value.as_str()), ("BOT_ID", "b1"));
    assert_eq!(run.writes, 1);
    let record = store.metadata_of("u1", "b1").unwrap();
    assert_eq!(record.status, TaskStatus::Running);
    assert_eq!(record.task_id, "new-task-1");
    assert_eq!(record.updated_at, 1_700_000_000);
    assert_eq!(record.version, 1);
    assert_eq!(store.status_of("u1", "b1"), Some(TaskStatus::Running));
}

#[test]
fn record_is_planned_for_the_parsed_task_id() {
    let mut seen = Vec::new();
    let run = drive(
        killed_task(),
        42,
        &mut |_| started("arn:aws:ecs:eu-west-1:1:task/bots/0123abcd"),
        &mut |write| {
            seen.push((
                write.put().user_id.clone(),
                write.put().bot_id.clone(),
                write.put().status,
                write.put().task_id.clone(),
                write.put().updated_at,
                write.update().user_id.clone(),
                write.update().bot_id.clone(),
                write.update().status,
            ));
            StoreReply::Committed
        },
    );
    assert_eq!(run.outcome, Outcome::Restarted);
    assert_eq!(
        seen,
        vec![(
            "u1".to_string(),
            "b1".to_string(),
            TaskStatus::Running,
            "0123abcd".to_string(),
            42,
            "u1".to_string(),
            "b1".to_string(),
            TaskStatus::Running,
        )]
    );
}

#[test]
fn killed_task_without_stop_code_is_relaunched_too() {
    let n = stopped(Some(137), None, &[("USER_ID", "u1"), ("BOT_ID", "b1")]);
    let run = drive(n, 1, &mut |_| started("task/c/t"), &mut |_| StoreReply::Committed);
    assert_eq!(run.outcome, Outcome::Restarted);
    assert_eq!(run.launches.len(), 1);
    assert_eq!(run.writes, 1);
}

#[test]
fn user_initiated_stop_launches_nothing_and_writes_nothing() {
    let n = stopped(Some(137), Some("UserInitiated"), &[("USER_ID", "u1"), ("BOT_ID", "b1")]);
    let run = drive_filtered(n);
    assert_eq!(run.outcome, Outcome::Filtered(FilterReason::NotRestartWorthy));
    assert_eq!(run.outcome.into_result(), Ok(()));
    assert_eq!(run.launches.len(), 0);
    assert_eq!(run.writes, 0);
}

#[test]
fn platform_failures_report_launch_failed_and_write_nothing() {
    let run = drive(
        killed_task(),
        5,
        &mut |_| {
            LaunchReply::Answered(PlatformReply {
                tasks: vec![],
                failures: vec![LaunchFailure { arn: None, reason: Some("RESOURCE:MEMORY".to_string()) }],
            })
        },
        &mut |_| panic!("no store write may be made"),
    );
    assert_eq!(run.outcome, Outcome::Failed(ReactorError::LaunchFailed(LaunchError::PlatformRejected)));
    assert_eq!(
        run.outcome.into_result(),
        Err(ReactorError::LaunchFailed(LaunchError::PlatformRejected))
    );
    assert_eq!(run.launches.len(), 1);
    assert_eq!(run.writes, 0);
}

#[test]
fn launch_without_a_task_reports_launch_failed() {
    let run = drive(
        killed_task(),
        5,
        &mut |_| LaunchReply::Answered(PlatformReply { tasks: vec![], failures: vec![] }),
        &mut |_| panic!("no store write may be made"),
    );
    assert_eq!(run.outcome, Outcome::Failed(ReactorError::LaunchFailed(LaunchError::NoTaskReturned)));
    assert_eq!(run.writes, 0);
}

#[test]
fn failed_call_reports_launch_failed() {
    let run = drive(
        killed_task(),
        5,
        &mut |_| LaunchReply::Unanswered,
        &mut |_| panic!("no store write may be made"),
    );
    assert_eq!(run.outcome, Outcome::Failed(ReactorError::LaunchFailed(LaunchError::CallFailed)));
    assert_eq!(run.writes, 0);
}

#[test]
fn failed_transaction_reports_store_failed_and_is_not_retried() {
    let mut store = InMemoryStore::new();
    let run = drive(
        killed_task(),
        5,
        &mut |_| started("task/bots/orphan"),
        &mut |write| store.answer(write),
    );
    assert_eq!(run.outcome, Outcome::Failed(ReactorError::StoreFailed(StoreError::TransactionFailed)));
    assert_eq!(
        run.outcome.into_result(),
        Err(ReactorError::StoreFailed(StoreError::TransactionFailed))
    );
    assert_eq!(run.launches.len(), 1);
    assert_eq!(run.writes, 1);
    assert_eq!(store.len(), 0);
}

#[test]
fn replayed_notification_launches_again_and_the_last_write_wins() {
    let mut store = InMemoryStore::new();
    store.register_bot("u1", "b1");
    let mut launched = 0;
    let mut platform = |_: &LaunchRequest| {
        launched += 1;
        started(&format!("arn:task/bots/replacement-{launched}"))
    };
    let first = drive(killed_task(), 100, &mut platform, &mut |write| store.answer(write));
    assert_eq!(store.metadata_of("u1", "b1").unwrap().task_id, "replacement-1");
    let second = drive(killed_task(), 101, &mut platform, &mut |write| store.answer(write));
    assert_eq!(first.outcome, Outcome::Restarted);
    assert_eq!(second.outcome, Outcome::Restarted);
    assert_eq!(first.launches.len() + second.launches.len(), 2);
    assert_eq!(first.writes + second.writes, 2);
    assert_eq!(launched, 2);
    let record = store.metadata_of("u1", "b1").unwrap();
    assert_eq!(record.task_id, "replacement-2");
    assert_eq!(record.updated_at, 101);
    assert_eq!(record.version, 2);
    assert_eq!(record.status, TaskStatus::Running);
    assert_eq!(store.status_of("u1", "b1"), Some(TaskStatus::Running));
}

#[test]
fn judge_names_the_owner_of_a_restart() {
    match judge(&killed_task()) {
        Verdict::Restart(owner) => {
            assert_eq!(owner.user_id, "u1");
            assert_eq!(owner.bot_id, "b1");
        }
        Verdict::Filtered(reason) => panic!("filtered: {reason:?}"),
    }
}

#[test]
fn event_that_the_state_does_not_wait_for_changes_nothing() {
    let target = target();
    let (state, action) = step_at(&target, ReactorState::Idle, Event::Stored(StoreReply::Committed), 0);
    assert!(matches!(state, ReactorState::Idle));
    assert!(matches!(action, Action::Nothing));
    let (state, action) = step_at(&target, ReactorState::Idle, Event::Launched(started("t/1")), 0);
    assert!(matches!(state, ReactorState::Idle));
    assert!(matches!(action, Action::Nothing));

    let (waiting, _) = step_at(&target, ReactorState::Idle, Event::Notification(killed_task()), 0);
    assert!(matches!(waiting, ReactorState::AwaitingLaunch { .. }));
    let (waiting, action) = step_at(&target, waiting, Event::Notification(killed_task()), 0);
    assert!(matches!(waiting, ReactorState::AwaitingLaunch { .. }));
    assert!(matches!(action, Action::Nothing));
    let (waiting, action) = step_at(&target, waiting, Event::Stored(StoreReply::Committed), 0);
    assert!(matches!(waiting, ReactorState::AwaitingLaunch { .. }));
    assert!(matches!(action, Action::Nothing));
}

#[test]
fn awaiting_store_keeps_owner_and_task_id() {
    let target = target();
    let (state, _) = step_at(&target, ReactorState::Idle, Event::Notification(killed_task()), 0);
    let (state, action) = step_at(&target, state, Event::Launched(started("task/bots/t-77")), 9);
    assert!(matches!(action, Action::Save(_)));
    match &state {
        ReactorState::AwaitingStore { owner, task_id } => {
            assert_eq!(owner.user_id, "u1");
            assert_eq!(owner.bot_id, "b1");
            assert_eq!(task_id, "t-77");
        }
        other => panic!("unexpected state {other:?}"),
    }
    let (state, action) = step_at(&target, state, Event::Launched(started("task/bots/t-78")), 9);
    assert!(matches!(state, ReactorState::AwaitingStore { .. }));
    assert!(matches!(action, Action::Nothing));
}

#[test]
fn done_is_final() {
    let target = target();
    for event in [
        Event::Notification(killed_task()),
        Event::Launched(started("t/1")),
        Event::Stored(StoreReply::Committed),
        Event::Stored(StoreReply::Rejected),
    ] {
        let (state, action) = step_at(&target, ReactorState::Done, event, 0);
        assert!(state.is_done());
        assert!(matches!(action, Action::Nothing));
    }
}

#[test]
fn second_notification_in_one_run_is_not_worked_on() {
    let target = target();
    let (state, _) = step_at(&target, ReactorState::Idle, Event::Notification(killed_task()), 0);
    let (state, _) = step_at(&target, state, Event::Launched(started("t/1")), 0);
    let (state, action) = step_at(&target, state, Event::Stored(StoreReply::Committed), 0);
    assert!(matches!(action, Action::Finish(Outcome::Restarted)));
    let (state, action) = step_at(&target, state, Event::Notification(killed_task()), 0);
    assert!(state.is_done());
    assert!(matches!(action, Action::Nothing));
}

#[test]
fn reactor_stamps_the_record_with_its_clock() {
    let reactor = EventReactor::new(target(), MockClock { timestamp: 1_234_567 });
    let state = reactor.start();
    assert!(matches!(state, ReactorState::Idle));
    let (state, action) = reactor.step(state, Event::Notification(killed_task()));
    assert!(matches!(action, Action::Launch(_)));
    let (state, action) = reactor.step(state, Event::Launched(started("task/bots/t-1")));
    match action {
        Action::Save(write) => {
            assert_eq!(write.put().updated_at, 1_234_567);
            assert_eq!(write.put().task_id, "t-1");
            assert_eq!(write.put().status, TaskStatus::Running);
        }
        other => panic!("unexpected action {other:?}"),
    }
    let (state, action) = reactor.step(state, Event::Stored(StoreReply::Committed));
    assert!(state.is_done());
    assert!(matches!(action, Action::Finish(Outcome::Restarted)));
}

#[test]
fn reactor_only_ever_writes_running() {
    for arn in ["task/a", "b", "", "x/y/z"] {
        let mut statuses = Vec::new();
        drive(killed_task(), 3, &mut |_| started(arn), &mut |write| {
            statuses.push((write.put().status, write.update().status));
            StoreReply::Committed
        });
        assert_eq!(statuses, vec![(TaskStatus::Running, TaskStatus::Running)]);
    }
}

#[test]
fn outcomes_map_to_what_the_host_is_told() {
    for reason in [
        FilterReason::NotApplicable,
        FilterReason::Unreadable,
        FilterReason::NotStopped,
        FilterReason::MissingIdentity,
        FilterReason::NoContainers,
        FilterReason::NotRestartWorthy,
    ] {
        assert_eq!(Outcome::Filtered(reason).into_result(), Ok(()));
    }
    assert_eq!(Outcome::Restarted.into_result(), Ok(()));
    for e in [LaunchError::CallFailed, LaunchError::PlatformRejected, LaunchError::NoTaskReturned] {
        assert_eq!(
            Outcome::Failed(ReactorError::LaunchFailed(e)).into_result(),
            Err(ReactorError::LaunchFailed(e))
        );
    }
    assert_eq!(
        Outcome::Failed(ReactorError::StoreFailed(StoreError::TransactionFailed)).into_result(),
        Err(ReactorError::StoreFailed(StoreError::TransactionFailed))
    );
}
