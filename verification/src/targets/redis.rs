//! Redis target: caches each video's payload under a templated key.

use vstd::prelude::*;

verus! {

use crate::common::TargetVerifySpec;

/// Configuration of a Redis target.
#[derive(Debug, Clone, PartialEq, Default)]
pub struct RedisTargetSpec {
    /// Name of the Secret holding the database credentials.
    pub secret: String,
    /// Template for the Redis key.
    pub key: Option<String>,
    /// Credentials verification settings.
    pub verify: Option<TargetVerifySpec>,
}

} // verus!
