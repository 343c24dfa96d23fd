//! S3 target: stores content in an S3-compatible bucket under a
//! templated key.

use vstd::prelude::*;

verus! {

use crate::common::TargetVerifySpec;

/// Configuration of an S3 target.
#[derive(Debug, Clone, PartialEq, Default)]
pub struct S3TargetSpec {
    /// Bucket name.
    pub bucket: String,
    /// Object key template.
    pub key: Option<String>,
    /// Name of the Secret holding the credentials; the ambient default
    /// provider chain is used when unset.
    pub secret: Option<String>,
    /// Region name.
    pub region: Option<String>,
    /// Alternative endpoint for S3-compatible services.
    pub endpoint: Option<String>,
    /// Credentials verification settings.
    pub verify: Option<TargetVerifySpec>,
}

} // verus!
