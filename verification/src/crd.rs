//! A minimal example resource kept alongside the operator: a counted
//! echo service.

use vstd::prelude::*;

verus! {

/// Specification of the example `Echo` resource.
#[derive(Debug, Clone, PartialEq)]
pub struct EchoSpec {
    /// Desired number of replicas.
    pub replicas: i32,
}

} // verus!
