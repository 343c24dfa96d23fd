//! The per-video job resource: one executor pod downloads one video
//! and/or its thumbnail behind the VPN.

use crate::content_storage::OutputSpec;
use crate::k8s_model::ObjectMetaModel;
use vstd::prelude::*;
use crate::text::str_eq;

verus! {

/// Specification of the per-video job resource.
#[derive(Debug, Clone, PartialEq, Default)]
pub struct ExecutorSpec {
    /// One metadata json line from the query, carried verbatim.
    pub metadata: String,
    /// Executor image override, inherited from the parent.
    pub executor: Option<String>,
    /// Extra downloader arguments, inherited from the parent.
    pub extra: Option<String>,
    /// Output specification, inherited from the parent.
    pub output: OutputSpec,
}

/// Status object of the per-video job resource.
#[derive(Debug, Clone, PartialEq, Default)]
pub struct ExecutorStatus {
    /// A short description of the resource's current state.
    pub phase: Option<String>,
    /// A human-readable message explaining the phase.
    pub message: Option<String>,
    /// Timestamp of when the download pod started.
    pub start_time: Option<String>,
    /// Timestamp of the last status update.
    pub last_updated: Option<String>,
}

/// The per-video job resource as the controller sees it.
#[derive(Debug, Clone, PartialEq)]
pub struct Executor {
    /// Object metadata.
    pub metadata: ObjectMetaModel,
    /// Specification.
    pub spec: ExecutorSpec,
    /// Status, absent until the controller first writes it.
    pub status: Option<ExecutorStatus>,
}

/// A short description of the job resource's current state.
#[derive(Debug, Clone, Copy, PartialEq, Eq, Structural)]
pub enum ExecutorPhase {
    /// The resource first appeared to the controller.
    Pending,
    /// The download pod is being created or not yet running.
    Starting,
    /// The download pod is running.
    Running,
    /// All requested downloads completed.
    Succeeded,
    /// The download pod failed; see the message for the reason.
    Failed,
}

impl ExecutorPhase {
    /// The phase name as persisted in `status.phase`.
    pub open spec fn spec_name(self) -> Seq<char> {
        match self {
            ExecutorPhase::Pending => "Pending"@,
            ExecutorPhase::Starting => "Starting"@,
            ExecutorPhase::Running => "Running"@,
            ExecutorPhase::Succeeded => "Succeeded"@,
            ExecutorPhase::Failed => "Failed"@,
        }
    }

    /// Renders the phase name.
    pub fn to_str(&self) -> (r: &'static str)
        ensures
            r@ == self.spec_name(),
    {
        match self {
            ExecutorPhase::Pending => "Pending",
            ExecutorPhase::Starting => "Starting",
            ExecutorPhase::Running => "Running",
            ExecutorPhase::Succeeded => "Succeeded",
            ExecutorPhase::Failed => "Failed",
        }
    }

    /// Parses a persisted phase name; `None` for anything else.
    pub fn from_str(s: &str) -> (r: Option<ExecutorPhase>)
        ensures
            match r {
                Some(p) => s@ == p.spec_name(),
                None => s@ != "Pending"@ && s@ != "Starting"@ && s@ != "Running"@ && s@ != "Succeeded"@ && s@ != "Failed"@,
            },
    {
        if str_eq(s, "Pending") {
            Some(ExecutorPhase::Pending)
        } else if str_eq(s, "Starting") {
            Some(ExecutorPhase::Starting)
        } else if str_eq(s, "Running") {
            Some(ExecutorPhase::Running)
        } else if str_eq(s, "Succeeded") {
            Some(ExecutorPhase::Succeeded)
        } else if str_eq(s, "Failed") {
            Some(ExecutorPhase::Failed)
        } else {
            None
        }
    }
}

} // verus!
