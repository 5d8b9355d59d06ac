//! Where the table of bots is.

use vstd::prelude::*;

verus! {

#[derive(Debug)]
pub struct DynamoDBConfig {
    /// Absent where the platform's own endpoint is used.
    pub endpoint_url: Option<String>,
    pub region: String,
    pub table_name: String,
}

} // verus!
