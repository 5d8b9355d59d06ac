//! Where replacement tasks are started.

use vstd::prelude::*;

verus! {

/// The container orchestration's settings.
#[derive(Debug)]
pub struct EcsConfig {
    pub region: String,
    pub cluster_arn: String,
    pub td_passivbot_v741_arn: String,
    pub td_passivbot_v741_container_name: String,
}

/// What every replacement run is started with: the cluster, the task
/// definition and the container whose environment names the owner.
#[derive(Debug)]
pub struct LaunchTarget {
    pub cluster_id: String,
    pub task_definition: String,
    pub container_name: String,
}

/// A launch target as plain text.
pub struct LaunchTargetView {
    pub cluster_id: Seq<char>,
    pub task_definition: Seq<char>,
    pub container_name: Seq<char>,
}

impl View for LaunchTarget {
    type V = LaunchTargetView;

    open spec fn view(&self) -> LaunchTargetView {
        LaunchTargetView {
            cluster_id: self.cluster_id@,
            task_definition: self.task_definition@,
            container_name: self.container_name@,
        }
    }
}

impl EcsConfig {
    /// The launch target that these settings name.
    pub fn launch_target(&self) -> (target: LaunchTarget)
        ensures
            target@.cluster_id == self.cluster_arn@,
            target@.task_definition == self.td_passivbot_v741_arn@,
            target@.container_name == self.td_passivbot_v741_container_name@,
    {
        LaunchTarget {
            cluster_id: self.cluster_arn.clone(),
            task_definition: self.td_passivbot_v741_arn.clone(),
            container_name: self.td_passivbot_v741_container_name.clone(),
        }
    }
}

} // verus!
