//! Shared pieces of the target resources: verification settings and the
//! common status shape.

use vstd::prelude::*;
use crate::text::str_eq;

verus! {

/// Configuration for a target's credentials verification.
#[derive(Debug, Clone, PartialEq, Default)]
pub struct TargetVerifySpec {
    /// Skip credentials verification entirely.
    pub skip: Option<bool>,
    /// Interval for re-verifying after the first success.
    pub interval: Option<String>,
}

/// Status object shared by the target resources.
#[derive(Debug, Clone, PartialEq, Default)]
pub struct TargetStatus {
    /// A short description of the resource's current state.
    pub phase: Option<String>,
    /// A human-readable message explaining the phase.
    pub message: Option<String>,
    /// Timestamp of the last status update.
    pub last_updated: Option<String>,
    /// Timestamp of the last successful verification.
    pub last_verified: Option<String>,
}

/// A short description of a target resource's current state.
#[derive(Debug, Clone, Copy, PartialEq, Eq, Structural)]
pub enum TargetPhase {
    /// The resource first appeared to the controller.
    Pending,
    /// The credentials are being tested against the service.
    Verifying,
    /// The backing service is ready to be used.
    Ready,
    /// The credentials test failed.
    ErrVerifyFailed,
}

impl TargetPhase {
    /// The phase name as persisted in `status.phase`.
    pub open spec fn spec_name(self) -> Seq<char> {
        match self {
            TargetPhase::Pending => "Pending"@,
            TargetPhase::Verifying => "Verifying"@,
            TargetPhase::Ready => "Ready"@,
            TargetPhase::ErrVerifyFailed => "ErrVerifyFailed"@,
        }
    }

    /// Renders the phase name.
    pub fn to_str(&self) -> (r: &'static str)
        ensures
            r@ == self.spec_name(),
    {
        match self {
            TargetPhase::Pending => "Pending",
            TargetPhase::Verifying => "Verifying",
            TargetPhase::Ready => "Ready",
            TargetPhase::ErrVerifyFailed => "ErrVerifyFailed",
        }
    }

    /// Parses a persisted phase name; `None` for anything else.
    pub fn from_str(s: &str) -> (r: Option<TargetPhase>)
        ensures
            match r {
                Some(p) => s@ == p.spec_name(),
                None => s@ != "Pending"@ && s@ != "Verifying"@ && s@ != "Ready"@ && s@ != "ErrVerifyFailed"@,
            },
    {
        if str_eq(s, "Pending") {
            Some(TargetPhase::Pending)
        } else if str_eq(s, "Verifying") {
            Some(TargetPhase::Verifying)
        } else if str_eq(s, "Ready") {
            Some(TargetPhase::Ready)
        } else if str_eq(s, "ErrVerifyFailed") {
            Some(TargetPhase::ErrVerifyFailed)
        } else {
            None
        }
    }
}

} // verus!
