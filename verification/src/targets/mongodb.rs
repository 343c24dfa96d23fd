//! MongoDB target: stores each video's metadata json as one document.

use vstd::prelude::*;

verus! {

use crate::common::TargetVerifySpec;

/// Configuration of a MongoDB target.
#[derive(Debug, Clone, PartialEq, Default)]
pub struct MongoDBTargetSpec {
    /// Name of the Secret holding the database credentials.
    pub secret: String,
    /// Collection name override.
    pub collection: Option<String>,
    /// Template for the documents' `_id` field.
    pub id: Option<String>,
    /// Credentials verification settings.
    pub verify: Option<TargetVerifySpec>,
}

} // verus!
