//! The settings of the processes.

use crate::config::dynamodb::DynamoDBConfig;
use crate::config::ecs::EcsConfig;
use crate::config::s3::S3Config;
use vstd::prelude::*;

verus! {

/// The settings of the process that serves users.
#[derive(Debug)]
pub struct Configs {
    pub dynamodb: DynamoDBConfig,
    pub s3: S3Config,
}

/// The settings of the process that reacts to stopped tasks.
#[derive(Debug)]
pub struct TaskStoppedConfig {
    pub ecs: EcsConfig,
    /// The table of the bots' own records.
    pub dynamodb: DynamoDBConfig,
    /// The table of the task metadata records.
    pub task_metadata: DynamoDBConfig,
}

} // verus!
