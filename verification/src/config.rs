//! Settings that are loaded once, when the process starts.

use vstd::prelude::*;

pub mod configs;
pub mod dynamodb;
pub mod ecs;
pub mod s3;

verus! {

/// Where the table of bots is, with a fixed endpoint.
#[derive(Debug)]
pub struct DynamoDBConfig {
    pub endpoint_url: String,
    pub region: String,
    pub table_name: String,
}

/// The settings of a process that needs the table of bots only.
#[derive(Debug)]
pub struct Settings {
    pub dynamodb: DynamoDBConfig,
}

} // verus!
