//! The library's model of the Kubernetes objects the logic reads and
//! writes: object metadata, owner references, and the slice of a pod's
//! status that the controllers act on. The unverified shell converts
//! between these models and the client library's types.

use vstd::prelude::*;
use crate::text::str_eq;

verus! {

/// An owner reference as written onto child resources.
#[derive(Debug, Clone, PartialEq, Default)]
pub struct OwnerReference {
    /// API version of the owner.
    pub api_version: String,
    /// Kind of the owner, e.g. `"Download"`.
    pub kind: String,
    /// Name of the owner.
    pub name: String,
    /// UID of the owner.
    pub uid: String,
    /// Whether the owner is the managing controller.
    pub controller: bool,
}

/// Object metadata of a resource, as far as the logic reads it.
#[derive(Debug, Clone, PartialEq, Default)]
pub struct ObjectMetaModel {
    /// Object name.
    pub name: String,
    /// Object namespace.
    pub namespace: String,
    /// Object UID assigned by the API server; empty until the object has
    /// been persisted.
    pub uid: String,
    /// Set once deletion has been requested.
    pub deletion_timestamp: Option<String>,
    /// Finalizers currently on the object.
    pub finalizers: Vec<String>,
    /// Owner references.
    pub owner_references: Vec<OwnerReference>,
    /// Labels, as name/value pairs.
    pub labels: Vec<(String, String)>,
}

/// One entry of a pod's `status.conditions`.
#[derive(Debug, Clone, PartialEq, Default)]
pub struct PodCondition {
    /// Condition type, e.g. `"PodScheduled"`.
    pub type_: String,
    /// Condition status: `"True"`, `"False"` or `"Unknown"`.
    pub status: String,
    /// Optional human-readable message.
    pub message: Option<String>,
}

/// The slice of an observed pod that the controllers act on.
#[derive(Debug, Clone, PartialEq, Default)]
pub struct PodSnapshot {
    /// The pod's `status.phase`.
    pub phase: Option<String>,
    /// The pod's `status.conditions`.
    pub conditions: Vec<PodCondition>,
    /// The pod's creation timestamp.
    pub creation_timestamp: Option<String>,
}

/// The condition reports that the pod could not be scheduled.
pub open spec fn spec_cond_is_scheduling_failure(c: PodCondition) -> bool {
    c.type_@ == "PodScheduled"@ && c.status@ == "False"@
}

/// The message a scheduling failure surfaces: the condition's own message,
/// or a stand-in when the condition carries none.
pub open spec fn spec_scheduling_message(c: PodCondition) -> Seq<char> {
    match c.message {
        Some(m) => m@,
        None => "PodScheduled == False, but no message was provided"@,
    }
}

/// The first scheduling-failure condition, if any.
pub open spec fn spec_first_scheduling_failure(cs: Seq<PodCondition>) -> Option<PodCondition>
    decreases cs.len(),
{
    if cs.len() == 0 {
        None
    } else if spec_cond_is_scheduling_failure(cs[0]) {
        Some(cs[0])
    } else {
        spec_first_scheduling_failure(cs.drop_first())
    }
}

/// Scans a pod's conditions for a scheduling failure and returns its
/// message.
pub fn check_pod_scheduling_error(status: &PodSnapshot) -> (r: Option<String>)
    ensures
        match spec_first_scheduling_failure(status.conditions@) {
            Some(c) => r matches Some(m) && m@ == spec_scheduling_message(c),
            None => r is None,
        },
{
    let mut i: usize = 0;
    assert(status.conditions@.skip(0) =~= status.conditions@);
    while i < status.conditions.len()
        invariant
            i <= status.conditions@.len(),
            spec_first_scheduling_failure(status.conditions@.skip(i as int))
                == spec_first_scheduling_failure(status.conditions@),
        decreases status.conditions@.len() - i,
    {
        proof {
            assert(status.conditions@.skip(i as int)[0] == status.conditions@[i as int]);
            assert(status.conditions@.skip(i as int).drop_first()
                =~= status.conditions@.skip(i + 1));
        }
        let c = &status.conditions[i];
        if str_eq(c.type_.as_str(), "PodScheduled") && str_eq(c.status.as_str(), "False") {
            return match &c.message {
                Some(m) => Some(m.clone()),
                None => Some(String::from_str("PodScheduled == False, but no message was provided")),
            };
        }
        i += 1;
    }
    assert(status.conditions@.skip(i as int) =~= Seq::<PodCondition>::empty());
    None
}

/// The merge patch that adds the finalizer to a resource.
pub fn finalizer_add_patch() -> (r: String)
    ensures
        r@ == "{\"metadata\":{\"finalizers\":[\"ytdl.beebs.dev/finalizer\"]}}"@,
{
    String::from_str("{\"metadata\":{\"finalizers\":[\"ytdl.beebs.dev/finalizer\"]}}")
}

/// The merge patch that clears a resource's finalizers.
pub fn finalizer_remove_patch() -> (r: String)
    ensures
        r@ == "{\"metadata\":{\"finalizers\":null}}"@,
{
    String::from_str("{\"metadata\":{\"finalizers\":null}}")
}

} // verus!
