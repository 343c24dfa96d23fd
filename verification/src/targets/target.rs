//! The `Target` resource in its by-reference shape: lists of references
//! to target resources for each kind of content.

use vstd::prelude::*;

verus! {

/// A reference to a target resource in the same namespace.
#[derive(Debug, Clone, PartialEq, Default)]
pub struct TargetRef {
    /// Kind of the target resource, e.g. `"WebhookTarget"`.
    pub kind: String,
    /// Name of the target resource.
    pub name: String,
}

/// Which target resources receive each kind of content.
#[derive(Debug, Clone, PartialEq, Default)]
pub struct TargetSpec {
    /// Targets that store the metadata json.
    pub metadata: Option<Vec<TargetRef>>,
    /// Targets that store the video files.
    pub audiovisual: Option<Vec<TargetRef>>,
    /// Targets that store the thumbnails.
    pub thumbnail: Option<Vec<TargetRef>>,
}

} // verus!
