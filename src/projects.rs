//! Requests on a project's stored settings.

use vstd::prelude::*;
use std::collections::HashMap;

verus! {

/// Replaces all of a project's environment variables at once.
pub struct BulkUpdateProjectEnvironRequest {
    pub envs: HashMap<String, String>,
}

} // verus!
