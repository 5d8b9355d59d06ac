use pbtb_rust::identity::OwnerIdentity;
use pbtb_rust::launcher::{
    launch_request, launch_result, task_id_of, LaunchError, LaunchFailure, LaunchReply,
    PlatformReply, StartedTask, TagPropagation,
};

fn owner() -> OwnerIdentity {
    OwnerIdentity { user_id: "u1".to_string(), bot_id: "b1".to_string() }
}

fn task(arn: &str) -> StartedTask {
    StartedTask { task_arn: Some(arn.to_string()) }
}

fn failure() -> LaunchFailure {
    LaunchFailure { arn: Some("arn:container-instance/1".to_string()), reason: Some("RESOURCE:MEMORY".to_string()) }
}

#[test]
fn request_names_the_place_and_the_owner() {
    let request = launch_request(&owner(), "cluster-a", "arn:task-definition/passivbot:7", "passivbot");
    assert_eq!(request.cluster_id, "cluster-a");
    assert_eq!(request.task_definition, "arn:task-definition/passivbot:7");
    assert_eq!(request.container_name, "passivbot");
    assert_eq!(request.environment.len(), 2);
    assert_eq!(request.environment[0].name, "USER_ID");
    assert_eq!(request.environment[0].value, "u1");
    assert_eq!(request.environment[1].name, "BOT_ID");
    assert_eq!(request.environment[1].value, "b1");
}

#[test]
fn request_takes_tags_from_the_task_definition() {
    let request = launch_request(&owner(), "c", "td", "n");
    assert_eq!(request.propagate_tags, TagPropagation::TaskDefinition);
    assert!(request.managed_tags);
}

#[test]
fn task_id_is_the_trailing_segment() {
    assert_eq!(task_id_of("arn:aws:ecs:eu-west-1:1:task/bots/4f5e"), "4f5e");
    assert_eq!(task_id_of("4f5e"), "4f5e");
    assert_eq!(task_id_of("task/"), "");
    assert_eq!(task_id_of(""), "");
}

#[test]
fn started_task_gives_its_id() {
    let reply = LaunchReply::Answered(PlatformReply {
        tasks: vec![task("arn:aws:ecs:eu-west-1:1:task/bots/new-task")],
        failures: vec![],
    });
    assert_eq!(launch_result(&reply), Ok("new-task".to_string()));
}

#[test]
fn first_task_counts_where_several_started() {
    let reply = LaunchReply::Answered(PlatformReply {
        tasks: vec![task("task/c/one"), task("task/c/two")],
        failures: vec![],
    });
    assert_eq!(launch_result(&reply), Ok("one".to_string()));
}

#[test]
fn failures_reject_the_launch() {
    let reply = LaunchReply::Answered(PlatformReply { tasks: vec![], failures: vec![failure()] });
    assert_eq!(launch_result(&reply), Err(LaunchError::PlatformRejected));
}

#[test]
fn failures_reject_the_launch_even_beside_a_task() {
    let reply = LaunchReply::Answered(PlatformReply {
        tasks: vec![task("task/c/one")],
        failures: vec![failure()],
    });
    assert_eq!(launch_result(&reply), Err(LaunchError::PlatformRejected));
}

#[test]
fn empty_task_list_is_an_error() {
    let reply = LaunchReply::Answered(PlatformReply { tasks: vec![], failures: vec![] });
    assert_eq!(launch_result(&reply), Err(LaunchError::NoTaskReturned));
}

#[test]
fn task_without_identifier_is_an_error() {
    let reply = LaunchReply::Answered(PlatformReply {
        tasks: vec![StartedTask { task_arn: None }, task("task/c/two")],
        failures: vec![],
    });
    assert_eq!(launch_result(&reply), Err(LaunchError::NoTaskReturned));
}

#[test]
fn unanswered_call_is_an_error() {
    assert_eq!(launch_result(&LaunchReply::Unanswered), Err(LaunchError::CallFailed));
}
