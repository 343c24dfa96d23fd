//! The user-facing `Download` resource: what to fetch and where to put
//! it, together with its status and phases.

use crate::content_storage::OutputSpec;
use crate::k8s_model::ObjectMetaModel;
use vstd::prelude::*;
use crate::text::str_eq;

verus! {

/// Specification of the `Download` resource.
#[derive(Debug, Clone, PartialEq, Default)]
pub struct DownloadSpec {
    /// Input handed to the downloader: a URL, playlist, channel or search
    /// term.
    pub query: String,
    /// Continue querying when individual entries fail, as with age
    /// restricted videos in a playlist.
    pub ignore_errors: Option<bool>,
    /// Executor image override.
    pub executor: Option<String>,
    /// Extra arguments appended to the downloader invocation.
    pub extra: Option<String>,
    /// Where the downloaded content goes.
    pub output: OutputSpec,
}

/// Status object of the `Download` resource.
#[derive(Debug, Clone, PartialEq, Default)]
pub struct DownloadStatus {
    /// A short description of the resource's current state.
    pub phase: Option<String>,
    /// A human-readable message explaining the phase.
    pub message: Option<String>,
    /// Timestamp of the last status update.
    pub last_updated: Option<String>,
    /// Timestamp of when the query pod started.
    pub query_start_time: Option<String>,
}

/// The `Download` resource as the controller sees it.
#[derive(Debug, Clone, PartialEq)]
pub struct Download {
    /// Object metadata.
    pub metadata: ObjectMetaModel,
    /// Specification.
    pub spec: DownloadSpec,
    /// Status, absent until the controller first writes it.
    pub status: Option<DownloadStatus>,
}

/// A short description of the `Download` resource's current state.
#[derive(Debug, Clone, Copy, PartialEq, Eq, Structural)]
pub enum DownloadPhase {
    /// The resource first appeared to the controller.
    Pending,
    /// The query pod is being created.
    QueryStarting,
    /// The query pod is resolving the input into videos.
    Querying,
    /// At least one child job is still downloading.
    Downloading,
    /// Every child job succeeded and the metadata is published.
    Succeeded,
    /// The query failed; see the message for the reason.
    ErrQueryFailed,
}

impl DownloadPhase {
    /// The phase name as persisted in `status.phase`.
    pub open spec fn spec_name(self) -> Seq<char> {
        match self {
            DownloadPhase::Pending => "Pending"@,
            DownloadPhase::QueryStarting => "QueryStarting"@,
            DownloadPhase::Querying => "Querying"@,
            DownloadPhase::Downloading => "Downloading"@,
            DownloadPhase::Succeeded => "Succeeded"@,
            DownloadPhase::ErrQueryFailed => "ErrQueryFailed"@,
        }
    }

    /// Renders the phase name.
    pub fn to_str(&self) -> (r: &'static str)
        ensures
            r@ == self.spec_name(),
    {
        match self {
            DownloadPhase::Pending => "Pending",
            DownloadPhase::QueryStarting => "QueryStarting",
            DownloadPhase::Querying => "Querying",
            DownloadPhase::Downloading => "Downloading",
            DownloadPhase::Succeeded => "Succeeded",
            DownloadPhase::ErrQueryFailed => "ErrQueryFailed",
        }
    }

    /// Parses a persisted phase name; `None` for anything else.
    pub fn from_str(s: &str) -> (r: Option<DownloadPhase>)
        ensures
            match r {
                Some(p) => s@ == p.spec_name(),
                None => s@ != "Pending"@ && s@ != "QueryStarting"@ && s@ != "Querying"@ && s@ != "Downloading"@ && s@ != "Succeeded"@ && s@ != "ErrQueryFailed"@,
            },
    {
        if str_eq(s, "Pending") {
            Some(DownloadPhase::Pending)
        } else if str_eq(s, "QueryStarting") {
            Some(DownloadPhase::QueryStarting)
        } else if str_eq(s, "Querying") {
            Some(DownloadPhase::Querying)
        } else if str_eq(s, "Downloading") {
            Some(DownloadPhase::Downloading)
        } else if str_eq(s, "Succeeded") {
            Some(DownloadPhase::Succeeded)
        } else if str_eq(s, "ErrQueryFailed") {
            Some(DownloadPhase::ErrQueryFailed)
        } else {
            None
        }
    }
}

} // verus!
