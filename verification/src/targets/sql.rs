//! SQL target: stores each video's metadata in a SQL database.

use vstd::prelude::*;

verus! {

use crate::common::TargetVerifySpec;

/// Configuration of a SQL target.
#[derive(Debug, Clone, PartialEq, Default)]
pub struct SqlTargetSpec {
    /// Name of the Secret holding the database credentials.
    pub secret: String,
    /// Credentials verification settings.
    pub verify: Option<TargetVerifySpec>,
}

} // verus!
