//! The per-video child resource of a `Download` in its newest shape: one
//! resource per line of query output, carrying the metadata line and a
//! reference to the storage configuration.

use vstd::prelude::*;
use crate::text::str_eq;

verus! {

/// Specification of one per-video child process.
#[derive(Debug, Clone, PartialEq, Default)]
pub struct DownloadChildProcessSpec {
    /// Metadata json line from the query, carried verbatim.
    pub metadata: String,
    /// Name of the storage configuration resource, inherited from the parent.
    pub output: String,
}

/// Status object of one per-video child process.
#[derive(Debug, Clone, PartialEq, Default)]
pub struct DownloadChildProcessStatus {
    /// A short description of the resource's current state.
    pub phase: Option<String>,
    /// A human-readable message explaining the phase.
    pub message: Option<String>,
    /// Timestamp of when the download pod started.
    pub start_time: Option<String>,
    /// Timestamp of the last status update.
    pub last_updated: Option<String>,
}

/// A short description of the child process's current state.
#[derive(Debug, Clone, Copy, PartialEq, Eq, Structural)]
pub enum DownloadChildProcessPhase {
    /// The resource first appeared to the controller.
    Pending,
    /// Waiting on a VPN slot before work can start.
    Waiting,
    /// The child pod is being created.
    Starting,
    /// The child pod is running.
    Running,
    /// The child pod completed and all content is stored.
    Succeeded,
    /// The child pod failed.
    Failed,
}

impl DownloadChildProcessPhase {
    /// The phase name as persisted in `status.phase`.
    pub open spec fn spec_name(self) -> Seq<char> {
        match self {
            DownloadChildProcessPhase::Pending => "Pending"@,
            DownloadChildProcessPhase::Waiting => "Waiting"@,
            DownloadChildProcessPhase::Starting => "Starting"@,
            DownloadChildProcessPhase::Running => "Running"@,
            DownloadChildProcessPhase::Succeeded => "Succeeded"@,
            DownloadChildProcessPhase::Failed => "Failed"@,
        }
    }

    /// Renders the phase name.
    pub fn to_str(&self) -> (r: &'static str)
        ensures
            r@ == self.spec_name(),
    {
        match self {
            DownloadChildProcessPhase::Pending => "Pending",
            DownloadChildProcessPhase::Waiting => "Waiting",
            DownloadChildProcessPhase::Starting => "Starting",
            DownloadChildProcessPhase::Running => "Running",
            DownloadChildProcessPhase::Succeeded => "Succeeded",
            DownloadChildProcessPhase::Failed => "Failed",
        }
    }

    /// Parses a persisted phase name; `None` for anything else.
    pub fn from_str(s: &str) -> (r: Option<DownloadChildProcessPhase>)
        ensures
            match r {
                Some(p) => s@ == p.spec_name(),
                None => s@ != "Pending"@ && s@ != "Waiting"@ && s@ != "Starting"@ && s@ != "Running"@ && s@ != "Succeeded"@ && s@ != "Failed"@,
            },
    {
        if str_eq(s, "Pending") {
            Some(DownloadChildProcessPhase::Pending)
        } else if str_eq(s, "Waiting") {
            Some(DownloadChildProcessPhase::Waiting)
        } else if str_eq(s, "Starting") {
            Some(DownloadChildProcessPhase::Starting)
        } else if str_eq(s, "Running") {
            Some(DownloadChildProcessPhase::Running)
        } else if str_eq(s, "Succeeded") {
            Some(DownloadChildProcessPhase::Succeeded)
        } else if str_eq(s, "Failed") {
            Some(DownloadChildProcessPhase::Failed)
        } else {
            None
        }
    }
}

} // verus!
