//! Target configuration for the metadata json, with one variant per
//! supported backend.

use crate::content_storage::S3OutputSpec;
use vstd::prelude::*;
use crate::text::str_eq;

verus! {

/// Where the metadata json of each video is stored.
#[derive(Debug, Clone, PartialEq)]
pub enum MetadataTargetSpec {
    /// S3-compatible output, one `.json` object per video.
    S3(S3OutputSpec),
    /// SQL database output, one row per video.
    Sql(String),
    /// MongoDB output, one document per video.
    MongoDB(String),
    /// Redis output, one key per video.
    Redis(String),
}

/// Status object for the metadata target resource.
#[derive(Debug, Clone, PartialEq, Default)]
pub struct MetadataTargetStatus {
    /// A short description of the resource's current state.
    pub phase: Option<String>,
    /// A human-readable message explaining the phase.
    pub message: Option<String>,
    /// Timestamp of the last status update.
    pub last_updated: Option<String>,
    /// Timestamp of the last successful verification.
    pub last_verified: Option<String>,
}

/// A short description of the metadata target's current state.
#[derive(Debug, Clone, Copy, PartialEq, Eq, Structural)]
pub enum MetadataTargetPhase {
    /// The resource first appeared to the controller.
    Pending,
    /// The credentials are being tested against the backend.
    Verifying,
    /// The storage backend is ready to be used.
    Ready,
    /// The credentials test failed.
    ErrVerifyFailed,
}

impl MetadataTargetPhase {
    /// The phase name as persisted in `status.phase`.
    pub open spec fn spec_name(self) -> Seq<char> {
        match self {
            MetadataTargetPhase::Pending => "Pending"@,
            MetadataTargetPhase::Verifying => "Verifying"@,
            MetadataTargetPhase::Ready => "Ready"@,
            MetadataTargetPhase::ErrVerifyFailed => "ErrVerifyFailed"@,
        }
    }

    /// Renders the phase name.
    pub fn to_str(&self) -> (r: &'static str)
        ensures
            r@ == self.spec_name(),
    {
        match self {
            MetadataTargetPhase::Pending => "Pending",
            MetadataTargetPhase::Verifying => "Verifying",
            MetadataTargetPhase::Ready => "Ready",
            MetadataTargetPhase::ErrVerifyFailed => "ErrVerifyFailed",
        }
    }

    /// Parses a persisted phase name; `None` for anything else.
    pub fn from_str(s: &str) -> (r: Option<MetadataTargetPhase>)
        ensures
            match r {
                Some(p) => s@ == p.spec_name(),
                None => s@ != "Pending"@ && s@ != "Verifying"@ && s@ != "Ready"@ && s@ != "ErrVerifyFailed"@,
            },
    {
        if str_eq(s, "Pending") {
            Some(MetadataTargetPhase::Pending)
        } else if str_eq(s, "Verifying") {
            Some(MetadataTargetPhase::Verifying)
        } else if str_eq(s, "Ready") {
            Some(MetadataTargetPhase::Ready)
        } else if str_eq(s, "ErrVerifyFailed") {
            Some(MetadataTargetPhase::ErrVerifyFailed)
        } else {
            None
        }
    }
}

} // verus!
