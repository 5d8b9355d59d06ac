//! Asking the container orchestration for a replacement run, and reading its
//! answer.
//!
//! The call itself is made by the caller: this module says what to ask for
//! and what the answer means. Nothing here retries.

use crate::identity::{OwnerIdentity, OwnerIdentityView, BOT_ID_UPPER, USER_ID_UPPER};
use crate::text::{last_segment, trailing_segment};
use vstd::prelude::*;

verus! {

/// Separates the parts of a task identifier; the task id is the last part.
pub const PATH_SEPARATOR: char = '/';

/// Where a started task takes its tags from.
#[derive(Clone, Copy, Debug, PartialEq, Eq, Structural)]
pub enum TagPropagation {
    TaskDefinition,
    Service,
    Off,
}

/// One environment entry that a run sets for its container.
#[derive(Debug)]
pub struct EnvPair {
    pub name: String,
    pub value: String,
}

impl View for EnvPair {
    type V = (Seq<char>, Seq<char>);

    open spec fn view(&self) -> (Seq<char>, Seq<char>) {
        (self.name@, self.value@)
    }
}

/// What is asked of the platform to start one replacement task.
#[derive(Debug)]
pub struct LaunchRequest {
    pub cluster_id: String,
    pub task_definition: String,
    pub container_name: String,
    pub environment: Vec<EnvPair>,
    pub propagate_tags: TagPropagation,
    pub managed_tags: bool,
}

/// A launch request as plain text and values.
pub struct LaunchRequestView {
    pub cluster_id: Seq<char>,
    pub task_definition: Seq<char>,
    pub container_name: Seq<char>,
    pub environment: Seq<(Seq<char>, Seq<char>)>,
    pub propagate_tags: TagPropagation,
    pub managed_tags: bool,
}

impl View for LaunchRequest {
    type V = LaunchRequestView;

    open spec fn view(&self) -> LaunchRequestView {
        LaunchRequestView {
            cluster_id: self.cluster_id@,
            task_definition: self.task_definition@,
            container_name: self.container_name@,
            environment: self.environment@.map_values(|pair: EnvPair| pair@),
            propagate_tags: self.propagate_tags,
            managed_tags: self.managed_tags,
        }
    }
}

/// One task that the platform says it started.
pub struct StartedTask {
    pub task_arn: Option<String>,
}

/// One reason that the platform gives for not starting a task.
pub struct LaunchFailure {
    pub arn: Option<String>,
    pub reason: Option<String>,
}

/// The platform's answer to a launch request.
pub struct PlatformReply {
    pub tasks: Vec<StartedTask>,
    pub failures: Vec<LaunchFailure>,
}

/// How the call to the platform ended.
pub enum LaunchReply {
    /// The call did not come back with an answer.
    Unanswered,
    /// The platform answered.
    Answered(PlatformReply),
}

/// Why no replacement task was started.
#[derive(Clone, Copy, Debug, PartialEq, Eq, Structural)]
pub enum LaunchError {
    /// The call to the platform failed.
    CallFailed,
    /// The platform answered with a list of failures.
    PlatformRejected,
    /// The platform answered without a task, or without the task's identifier.
    NoTaskReturned,
}

/// The request that starts a replacement for `owner`'s task: the named
/// container learns whom it runs for from `USER_ID` and `BOT_ID`, and the task
/// takes its tags from the task definition.
pub open spec fn launch_request_for(
    owner: OwnerIdentityView,
    cluster_id: Seq<char>,
    task_definition: Seq<char>,
    container_name: Seq<char>,
) -> LaunchRequestView {
    LaunchRequestView {
        cluster_id,
        task_definition,
        container_name,
        environment: seq![(USER_ID_UPPER@, owner.user_id), (BOT_ID_UPPER@, owner.bot_id)],
        propagate_tags: TagPropagation::TaskDefinition,
        managed_tags: true,
    }
}

/// What a reply means: the id of the started task, or why there is none. A
/// list of failures counts before the list of tasks is looked at.
pub open spec fn launch_outcome(reply: LaunchReply) -> Result<Seq<char>, LaunchError> {
    match reply {
        LaunchReply::Unanswered => Err(LaunchError::CallFailed),
        LaunchReply::Answered(answer) => if answer.failures@.len() > 0 {
            Err(LaunchError::PlatformRejected)
        } else if answer.tasks@.len() == 0 {
            Err(LaunchError::NoTaskReturned)
        } else {
            match answer.tasks@[0].task_arn {
                Some(arn) => Ok(trailing_segment(arn@, PATH_SEPARATOR)),
                None => Err(LaunchError::NoTaskReturned),
            }
        },
    }
}

/// Builds the request for one replacement run.
pub fn launch_request(
    owner: &OwnerIdentity,
    cluster_id: &str,
    task_definition: &str,
    container_name: &str,
) -> (request: LaunchRequest)
    ensures
        request@ == launch_request_for(owner@, cluster_id@, task_definition@, container_name@),
{
    let mut environment: Vec<EnvPair> = Vec::new();
    environment.push(EnvPair { name: USER_ID_UPPER.to_owned(), value: owner.user_id.clone() });
    environment.push(EnvPair { name: BOT_ID_UPPER.to_owned(), value: owner.bot_id.clone() });
    let request = LaunchRequest {
        cluster_id: cluster_id.to_owned(),
        task_definition: task_definition.to_owned(),
        container_name: container_name.to_owned(),
        environment,
        propagate_tags: TagPropagation::TaskDefinition,
        managed_tags: true,
    };
    assert(request@.environment =~= launch_request_for(
        owner@,
        cluster_id@,
        task_definition@,
        container_name@,
    ).environment);
    request
}

/// The task id in a task identifier: what follows its last `/`.
pub fn task_id_of(task_arn: &str) -> (task_id: String)
    ensures
        task_id@ == trailing_segment(task_arn@, PATH_SEPARATOR),
{
    last_segment(task_arn, PATH_SEPARATOR)
}

/// Reads the platform's reply to a launch request.
pub fn launch_result(reply: &LaunchReply) -> (result: Result<String, LaunchError>)
    ensures
        match result {
            Ok(task_id) => launch_outcome(*reply) == Ok::<Seq<char>, LaunchError>(task_id@),
            Err(e) => launch_outcome(*reply) == Err::<Seq<char>, LaunchError>(e),
        },
{
    match reply {
        LaunchReply::Unanswered => Err(LaunchError::CallFailed),
        LaunchReply::Answered(answer) => {
            if answer.failures.len() > 0 {
                return Err(LaunchError::PlatformRejected);
            }
            if answer.tasks.len() == 0 {
                return Err(LaunchError::NoTaskReturned);
            }
            match &answer.tasks[0].task_arn {
                Some(arn) => Ok(task_id_of(arn.as_str())),
                None => Err(LaunchError::NoTaskReturned),
            }
        },
    }
}

} // verus!
