//! Storage configuration for the metadata json, with one variant per
//! supported backend.

use crate::content_storage::S3OutputSpec;
use vstd::prelude::*;
use crate::text::str_eq;

verus! {

/// Where the metadata json of each video is stored.
#[derive(Debug, Clone, PartialEq)]
pub enum MetadataStorageSpec {
    /// S3-compatible output, one `.json` object per video.
    S3(S3OutputSpec),
    /// SQL database output, one row per video.
    Sql(String),
    /// MongoDB output, one document per video.
    MongoDB(String),
    /// Redis output, one key per video.
    Redis(String),
}

/// Status object for the metadata storage resource.
#[derive(Debug, Clone, PartialEq, Default)]
pub struct MetadataStorageStatus {
    /// A short description of the resource's current state.
    pub phase: Option<String>,
    /// A human-readable message explaining the phase.
    pub message: Option<String>,
    /// Timestamp of the last status update.
    pub last_updated: Option<String>,
    /// Timestamp of the last successful verification.
    pub last_verified: Option<String>,
}

/// A short description of the metadata storage's current state.
#[derive(Debug, Clone, Copy, PartialEq, Eq, Structural)]
pub enum MetadataStoragePhase {
    /// The resource first appeared to the controller.
    Pending,
    /// The credentials are being tested against the backend.
    Verifying,
    /// The storage backend is ready to be used.
    Ready,
    /// The credentials test failed.
    ErrVerifyFailed,
}

impl MetadataStoragePhase {
    /// The phase name as persisted in `status.phase`.
    pub open spec fn spec_name(self) -> Seq<char> {
        match self {
            MetadataStoragePhase::Pending => "Pending"@,
            MetadataStoragePhase::Verifying => "Verifying"@,
            MetadataStoragePhase::Ready => "Ready"@,
            MetadataStoragePhase::ErrVerifyFailed => "ErrVerifyFailed"@,
        }
    }

    /// Renders the phase name.
    pub fn to_str(&self) -> (r: &'static str)
        ensures
            r@ == self.spec_name(),
    {
        match self {
            MetadataStoragePhase::Pending => "Pending",
            MetadataStoragePhase::Verifying => "Verifying",
            MetadataStoragePhase::Ready => "Ready",
            MetadataStoragePhase::ErrVerifyFailed => "ErrVerifyFailed",
        }
    }

    /// Parses a persisted phase name; `None` for anything else.
    pub fn from_str(s: &str) -> (r: Option<MetadataStoragePhase>)
        ensures
            match r {
                Some(p) => s@ == p.spec_name(),
                None => s@ != "Pending"@ && s@ != "Verifying"@ && s@ != "Ready"@ && s@ != "ErrVerifyFailed"@,
            },
    {
        if str_eq(s, "Pending") {
            Some(MetadataStoragePhase::Pending)
        } else if str_eq(s, "Verifying") {
            Some(MetadataStoragePhase::Verifying)
        } else if str_eq(s, "Ready") {
            Some(MetadataStoragePhase::Ready)
        } else if str_eq(s, "ErrVerifyFailed") {
            Some(MetadataStoragePhase::ErrVerifyFailed)
        } else {
            None
        }
    }
}

} // verus!
