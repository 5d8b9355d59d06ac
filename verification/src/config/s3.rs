//! Where configurations and templates are kept.

use vstd::prelude::*;

verus! {

#[derive(Debug)]
pub struct S3Config {
    pub endpoint_url: String,
    pub region: String,
    pub bucket_name: String,
}

} // verus!
