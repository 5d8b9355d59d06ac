//! The stop notification as the reactor reads it.
//!
//! Every field of the notification's body is optional: a field that the sender
//! left out, or that could not be read, is absent, never an error.

use crate::text::text_eq;
use vstd::prelude::*;

verus! {

/// The only event source whose notifications are considered.
pub const SOURCE_CONTAINER_ORCHESTRATION: &'static str = "container-orchestration";

/// The only kind of notification that is considered.
pub const DETAIL_TYPE_TASK_STATE_CHANGE: &'static str = "task-state-change";

/// The last status of a task that has reached its terminal state.
pub const STATUS_STOPPED: &'static str = "STOPPED";

/// The name under which the event bus announces the container orchestration.
pub const BUS_SOURCE: &'static str = "aws.ecs";

/// The name under which the event bus announces a task state change.
pub const BUS_DETAIL_TYPE: &'static str = "ECS Task State Change";

/// One entry of a container's environment.
pub struct EnvEntry {
    pub name: Option<String>,
    pub value: Option<String>,
}

/// What a task run overrode for one container.
pub struct ContainerOverride {
    pub name: Option<String>,
    pub environment: Option<Vec<EnvEntry>>,
}

/// The overrides that a task was started with.
pub struct TaskOverrides {
    pub container_overrides: Option<Vec<ContainerOverride>>,
}

/// How one container of the task ended.
pub struct ContainerState {
    pub name: Option<String>,
    pub exit_code: Option<i32>,
}

/// The body of a task state change.
pub struct StopDetail {
    pub cluster_id: Option<String>,
    pub task_id: Option<String>,
    pub last_status: Option<String>,
    pub stop_code: Option<String>,
    pub stopped_reason: Option<String>,
    pub containers: Option<Vec<ContainerState>>,
    pub overrides: Option<TaskOverrides>,
}

/// One inbound notification. `detail` is absent where the body did not have
/// the shape of a task state change.
pub struct StopNotification {
    pub source: String,
    pub detail_type: String,
    pub detail: Option<StopDetail>,
}

/// The text of an optional field; the empty text where the field is absent.
pub open spec fn text_or_empty(field: Option<String>) -> Seq<char> {
    match field {
        Some(s) => s@,
        None => Seq::empty(),
    }
}

impl EnvEntry {
    /// The entry's name; empty where it has none.
    pub open spec fn key(self) -> Seq<char> {
        text_or_empty(self.name)
    }

    /// The entry's value; empty where it has none.
    pub open spec fn text(self) -> Seq<char> {
        text_or_empty(self.value)
    }
}

impl StopDetail {
    /// The environment of the first container override; empty where any step
    /// on the way to it is absent.
    pub open spec fn first_override_env(self) -> Seq<EnvEntry> {
        match self.overrides {
            Some(overrides) => match overrides.container_overrides {
                Some(list) => if list@.len() > 0 {
                    match list@[0].environment {
                        Some(env) => env@,
                        None => Seq::empty(),
                    }
                } else {
                    Seq::empty()
                },
                None => Seq::empty(),
            },
            None => Seq::empty(),
        }
    }

    /// The first container of the task, where it has one.
    pub open spec fn first_container(self) -> Option<ContainerState> {
        match self.containers {
            Some(list) => if list@.len() > 0 {
                Some(list@[0])
            } else {
                None
            },
            None => None,
        }
    }

    /// The task has reached its terminal state.
    pub open spec fn stopped(self) -> bool {
        text_or_empty(self.last_status) == STATUS_STOPPED@
    }
}

impl ContainerState {
    /// The exit code that the classifier is asked about: that of the
    /// container, or -1 where none was reported.
    pub open spec fn exit_code_or_unknown(self) -> int {
        match self.exit_code {
            Some(code) => code as int,
            None => -1,
        }
    }
}

impl StopNotification {
    /// The notification comes from the container orchestration and tells of a
    /// task state change.
    pub open spec fn applicable(self) -> bool {
        &&& self.source@ == SOURCE_CONTAINER_ORCHESTRATION@
        &&& self.detail_type@ == DETAIL_TYPE_TASK_STATE_CHANGE@
    }
}

/// The source that a name on the event bus stands for: the container
/// orchestration for the bus's name of it, and the name itself otherwise.
pub open spec fn source_named(bus_name: Seq<char>) -> Seq<char> {
    if bus_name == BUS_SOURCE@ {
        SOURCE_CONTAINER_ORCHESTRATION@
    } else {
        bus_name
    }
}

/// The kind of notification that a name on the event bus stands for: a task
/// state change for the bus's name of it, and the name itself otherwise.
pub open spec fn detail_type_named(bus_name: Seq<char>) -> Seq<char> {
    if bus_name == BUS_DETAIL_TYPE@ {
        DETAIL_TYPE_TASK_STATE_CHANGE@
    } else {
        bus_name
    }
}

/// The source of a notification, from the name that the event bus gives it.
pub fn source_from_bus(bus_name: &str) -> (source: String)
    ensures
        source@ == source_named(bus_name@),
{
    if text_eq(bus_name, BUS_SOURCE) {
        SOURCE_CONTAINER_ORCHESTRATION.to_owned()
    } else {
        bus_name.to_owned()
    }
}

/// The kind of a notification, from the name that the event bus gives it.
pub fn detail_type_from_bus(bus_name: &str) -> (detail_type: String)
    ensures
        detail_type@ == detail_type_named(bus_name@),
{
    if text_eq(bus_name, BUS_DETAIL_TYPE) {
        DETAIL_TYPE_TASK_STATE_CHANGE.to_owned()
    } else {
        bus_name.to_owned()
    }
}

} // verus!
