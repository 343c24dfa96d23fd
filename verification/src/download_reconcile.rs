//! The Download controller's read phase: from the resource, the query
//! pod, the metadata ConfigMap and the observed child jobs, decide the
//! one action the write phase performs. Children are created one per
//! metadata line, named after the parent and the video id; a creation
//! that loses the race to the query executor answers 409 and is success.
//! A model state machine over the same decisions carries the
//! controller's invariants.

use vstd::prelude::*;
use crate::download::Download;
use crate::download::DownloadPhase;
use crate::download::DownloadStatus;
use crate::error::Error;
use crate::k8s_model::PodSnapshot;
use crate::k8s_model::check_pod_scheduling_error;
use crate::k8s_model::spec_first_scheduling_failure;
use crate::k8s_model::spec_scheduling_message;
use crate::job_reconcile::PodView;
use crate::metadata::Entity;
use crate::text::chars_to_string;
use crate::text::dup_opt_string;
use crate::text::push_all;
use crate::text::spec_dec;
use crate::text::str_eq;
use crate::text::to_char_vec;
use crate::text::u32_to_chars;

verus! {

/// Options of a query progress update: the pod's start time, once known.
#[derive(Debug, PartialEq, Eq, Clone)]
pub struct ProgressOptions {
    /// When the query pod started, if it has.
    pub start_time: Option<String>,
}

/// Options of a query failure report.
#[derive(Debug, PartialEq, Eq, Clone)]
pub struct QueryFailureOptions {
    /// The human-readable reason.
    pub message: String,
    /// Whether the query pod is deleted so the next reconcile recreates
    /// it; scheduling failures and a missing ConfigMap are left for the
    /// user to see.
    pub recreate: bool,
}

/// The one action a reconcile of the `Download` resource performs.
#[derive(Debug, PartialEq, Eq, Clone)]
pub enum ReconcileAction {
    /// First sight of the resource: set the phase to `Pending`.
    Pending,
    /// The resource is being deleted: delete the query pod and remove
    /// the finalizer; owned children are collected by the cluster.
    Delete,
    /// Add the finalizer and create the query pod.
    CreateQueryPod,
    /// Delete just the query pod.
    DeleteQueryPod,
    /// Report a query failure.
    QueryFailure(QueryFailureOptions),
    /// Report query progress.
    QueryProgress(ProgressOptions),
    /// Create the child job for one resolved video.
    CreateExecutor(Entity),
    /// Report how many children have succeeded so far.
    DownloadProgress {
        /// Children already succeeded.
        succeeded: usize,
        /// Children in total.
        total: usize,
    },
    /// Every child succeeded: mark the download done.
    Succeeded,
    /// Nothing to do.
    NoOp,
}

/// The resource still lacks a written phase.
pub open spec fn spec_needs_pending(instance: Download) -> bool {
    match instance.status {
        None => true,
        Some(s) => s.phase is None,
    }
}

/// Whether the resource needs its phase set to `Pending`, the first
/// action for any managed resource.
pub fn needs_pending(instance: &Download) -> (r: bool)
    ensures
        r == spec_needs_pending(*instance),
{
    match &instance.status {
        None => true,
        Some(s) => s.phase.is_none(),
    }
}

/// The phase named by a persisted phase string.
pub open spec fn spec_download_phase_of(s: Seq<char>) -> Option<DownloadPhase> {
    if s == "Pending"@ {
        Some(DownloadPhase::Pending)
    } else if s == "QueryStarting"@ {
        Some(DownloadPhase::QueryStarting)
    } else if s == "Querying"@ {
        Some(DownloadPhase::Querying)
    } else if s == "Downloading"@ {
        Some(DownloadPhase::Downloading)
    } else if s == "Succeeded"@ {
        Some(DownloadPhase::Succeeded)
    } else if s == "ErrQueryFailed"@ {
        Some(DownloadPhase::ErrQueryFailed)
    } else {
        None
    }
}

/// Reads the download's phase out of its status. A phase string outside
/// the enum is surfaced as `InvalidPhase`.
pub fn get_download_phase(instance: &Download) -> (r: Result<DownloadPhase, Error>)
    requires
        instance.status matches Some(s) && s.phase is Some,
    ensures
        ({
            let ph = instance.status->Some_0.phase->Some_0;
            match spec_download_phase_of(ph@) {
                Some(p) => r == Ok::<DownloadPhase, Error>(p),
                None => r matches Err(e) && e matches Error::InvalidPhase(m) && m@ == ph@,
            }
        }),
{
    let ph = match &instance.status {
        Some(s) => match &s.phase {
            Some(p) => p,
            None => unreached(),
        },
        None => unreached(),
    };
    if str_eq(ph.as_str(), "Pending") {
        Ok(DownloadPhase::Pending)
    } else if str_eq(ph.as_str(), "QueryStarting") {
        Ok(DownloadPhase::QueryStarting)
    } else if str_eq(ph.as_str(), "Querying") {
        Ok(DownloadPhase::Querying)
    } else if str_eq(ph.as_str(), "Downloading") {
        Ok(DownloadPhase::Downloading)
    } else if str_eq(ph.as_str(), "Succeeded") {
        Ok(DownloadPhase::Succeeded)
    } else if str_eq(ph.as_str(), "ErrQueryFailed") {
        Ok(DownloadPhase::ErrQueryFailed)
    } else {
        Err(Error::InvalidPhase(ph.clone()))
    }
}

/// What `determine_query_pod_action` promises. A pending pod without a
/// scheduling failure, or a running one, reports progress; a scheduling
/// failure is reported without recreating the pod; a pod that succeeded
/// is deleted when the ConfigMap is there, and is otherwise a failure
/// the user must see; any other terminal state is reported and the pod
/// recreated.
pub open spec fn spec_query_pod_action_ok(
    pod: PodSnapshot,
    configmap_exists: bool,
    r: Result<ReconcileAction, Error>,
) -> bool {
    match pod.phase {
        None => r matches Err(e) && e matches Error::UnknownError(_),
        Some(ph) => if ph@ == "Pending"@ {
            match spec_first_scheduling_failure(pod.conditions@) {
                Some(c) => r matches Ok(a) && a matches ReconcileAction::QueryFailure(f)
                    && !f.recreate && f.message@ == spec_scheduling_message(c),
                None => r matches Ok(a) && a matches ReconcileAction::QueryProgress(p)
                    && p.start_time is None,
            }
        } else if ph@ == "Running"@ {
            r matches Ok(a) && a matches ReconcileAction::QueryProgress(p)
                && p.start_time == pod.creation_timestamp
        } else if ph@ == "Succeeded"@ {
            if configmap_exists {
                r == Ok::<ReconcileAction, Error>(ReconcileAction::DeleteQueryPod)
            } else {
                r matches Ok(a) && a matches ReconcileAction::QueryFailure(f) && !f.recreate
                    && f.message@ == "query pod completed without creating metadata ConfigMap"@
            }
        } else {
            r matches Ok(a) && a matches ReconcileAction::QueryFailure(f) && f.recreate
                && f.message@ == "query pod is in phase "@ + ph@
        },
    }
}

/// Decides the action while the query pod exists, from the pod's
/// observed status and whether the metadata ConfigMap has appeared.
pub fn determine_query_pod_action(pod: &PodSnapshot, configmap_exists: bool) -> (r: Result<
    ReconcileAction,
    Error,
>)
    ensures
        spec_query_pod_action_ok(*pod, configmap_exists, r),
{
    let ph = match &pod.phase {
        Some(p) => p,
        None => {
            return Err(Error::UnknownError(String::from_str("query pod has no status phase")));
        },
    };
    if str_eq(ph.as_str(), "Pending") {
        match check_pod_scheduling_error(pod) {
            Some(message) => Ok(ReconcileAction::QueryFailure(QueryFailureOptions {
                message,
                recreate: false,
            })),
            None => Ok(ReconcileAction::QueryProgress(ProgressOptions { start_time: None })),
        }
    } else if str_eq(ph.as_str(), "Running") {
        Ok(ReconcileAction::QueryProgress(ProgressOptions {
            start_time: dup_opt_string(&pod.creation_timestamp),
        }))
    } else if str_eq(ph.as_str(), "Succeeded") {
        if configmap_exists {
            Ok(ReconcileAction::DeleteQueryPod)
        } else {
            Ok(ReconcileAction::QueryFailure(QueryFailureOptions {
                message: String::from_str("query pod completed without creating metadata ConfigMap"),
                recreate: false,
            }))
        }
    } else {
        let mut message = String::from_str("query pod is in phase ");
        message.append(ph.as_str());
        Ok(ReconcileAction::QueryFailure(QueryFailureOptions { message, recreate: true }))
    }
}

/// Decides the action while the query has not completed: create the
/// query pod if there is none, else act on its status.
pub fn determine_query_action(pod: &Option<PodSnapshot>, configmap_exists: bool) -> (r: Result<
    ReconcileAction,
    Error,
>)
    ensures
        match *pod {
            Some(p) => spec_query_pod_action_ok(p, configmap_exists, r),
            None => r == Ok::<ReconcileAction, Error>(ReconcileAction::CreateQueryPod),
        },
{
    match pod {
        Some(p) => determine_query_pod_action(p, configmap_exists),
        None => Ok(ReconcileAction::CreateQueryPod),
    }
}

/// A child job as observed for one entity: missing, or present with its
/// phase string.
#[derive(Debug, Clone, PartialEq)]
pub enum ChildJob {
    /// No job of the entity's name exists yet.
    Missing,
    /// The job exists, with this `status.phase`.
    Present {
        /// The child's phase string, if its status holds one.
        phase: Option<String>,
    },
}

/// The index of the first entity whose child job is missing.
pub open spec fn spec_first_missing(children: Seq<ChildJob>) -> Option<int>
    decreases children.len(),
{
    if children.len() == 0 {
        None
    } else if children[0] is Missing {
        Some(0)
    } else {
        match spec_first_missing(children.drop_first()) {
            Some(i) => Some(i + 1),
            None => None,
        }
    }
}

/// The child counts as succeeded exactly when its phase reads
/// `Succeeded`.
pub open spec fn spec_child_succeeded(c: ChildJob) -> bool {
    c matches ChildJob::Present { phase: Some(p) } && p@ == "Succeeded"@
}

/// How many children have succeeded.
pub open spec fn spec_succeeded_count(children: Seq<ChildJob>) -> int
    decreases children.len(),
{
    if children.len() == 0 {
        0
    } else {
        (if spec_child_succeeded(children[0]) {
            1int
        } else {
            0int
        }) + spec_succeeded_count(children.drop_first())
    }
}

/// The succeeded count never exceeds the number of children.
proof fn lemma_succeeded_count_le(children: Seq<ChildJob>)
    ensures
        0 <= spec_succeeded_count(children) <= children.len(),
    decreases children.len(),
{
    if children.len() > 0 {
        lemma_succeeded_count_le(children.drop_first());
    }
}

/// Decides the action once the metadata is published, from the resolved
/// entities and what was observed of their child jobs: create the first
/// missing child, else report progress until every child has succeeded,
/// then mark the download done once. A child is only ever created for an
/// entity whose job was observed missing, so no reconcile creates a
/// duplicate.
pub fn determine_executor_action(
    current_phase: DownloadPhase,
    entities: &Vec<Entity>,
    children: &Vec<ChildJob>,
) -> (r: ReconcileAction)
    requires
        children@.len() == entities@.len(),
    ensures
        ({
            match spec_first_missing(children@) {
                Some(i) => r matches ReconcileAction::CreateExecutor(e) && e == entities@[i],
                None => {
                    let total = entities@.len() as int;
                    let succ = spec_succeeded_count(children@);
                    if succ != total {
                        r matches ReconcileAction::DownloadProgress { succeeded, total: t }
                            && succeeded == succ && t == total
                    } else if current_phase != DownloadPhase::Succeeded {
                        r == ReconcileAction::Succeeded
                    } else {
                        r == ReconcileAction::NoOp
                    }
                },
            }
        }),
{
    let mut succeeded: usize = 0;
    let mut i: usize = 0;
    proof {
        assert(children@.skip(0) =~= children@);
    }
    while i < children.len()
        invariant
            i <= children@.len(),
            children@.len() == entities@.len(),
            succeeded as int == spec_succeeded_count(children@.take(i as int)),
            succeeded <= i,
            spec_first_missing(children@.take(i as int)) is None,
            ({
                match spec_first_missing(children@.skip(i as int)) {
                    Some(k) => spec_first_missing(children@) == Some(k + i),
                    None => spec_first_missing(children@) is None,
                }
            }),
            spec_succeeded_count(children@)
                == succeeded + spec_succeeded_count(children@.skip(i as int)),
        decreases children@.len() - i,
    {
        let ghost rest = children@.skip(i as int);
        proof {
            assert(rest[0] == children@[i as int]);
            assert(rest.drop_first() =~= children@.skip(i + 1));
            assert(children@.take(i + 1).drop_last() =~= children@.take(i as int));
            assert(children@.take(i + 1).last() == children@[i as int]);
            lemma_take_step(children@, i as int);
        }
        match &children[i] {
            ChildJob::Missing => {
                return ReconcileAction::CreateExecutor(entities[i].duplicate());
            },
            ChildJob::Present { phase } => {
                let is_succ = match phase {
                    Some(p) => str_eq(p.as_str(), "Succeeded"),
                    None => false,
                };
                if is_succ {
                    succeeded += 1;
                }
            },
        }
        i += 1;
    }
    proof {
        assert(children@.take(i as int) =~= children@);
        assert(children@.skip(i as int) =~= Seq::<ChildJob>::empty());
        lemma_succeeded_count_le(children@);
    }
    let total = children.len();
    if succeeded != total {
        ReconcileAction::DownloadProgress { succeeded, total }
    } else if !(matches!(current_phase, DownloadPhase::Succeeded)) {
        ReconcileAction::Succeeded
    } else {
        ReconcileAction::NoOp
    }
}

/// What `determine_action` promises, gathered so the model-agreement
/// law can name it.
pub open spec fn spec_determine_ok(
    instance: Download,
    configmap_exists: bool,
    pod: Option<PodSnapshot>,
    entities: Seq<Entity>,
    children: Seq<ChildJob>,
    r: Result<ReconcileAction, Error>,
) -> bool {
    &&& (instance.metadata.deletion_timestamp is Some
        ==> r == Ok::<ReconcileAction, Error>(ReconcileAction::Delete))
    &&& (instance.metadata.deletion_timestamp is None && spec_needs_pending(instance)
        ==> r == Ok::<ReconcileAction, Error>(ReconcileAction::Pending))
    &&& ((instance.metadata.deletion_timestamp is None && !spec_needs_pending(instance)
        && !configmap_exists) ==> match pod {
        Some(p) => spec_query_pod_action_ok(p, false, r),
        None => r == Ok::<ReconcileAction, Error>(ReconcileAction::CreateQueryPod),
    })
    &&& ((instance.metadata.deletion_timestamp is None && !spec_needs_pending(instance)
        && configmap_exists) ==> if pod is Some {
        r == Ok::<ReconcileAction, Error>(ReconcileAction::DeleteQueryPod)
    } else {
        ({
            let ph = instance.status->Some_0.phase->Some_0;
            match spec_download_phase_of(ph@) {
                Some(p) => r matches Ok(a) && ({
                    match spec_first_missing(children) {
                        Some(i) => a matches ReconcileAction::CreateExecutor(e)
                            && e == entities[i],
                        None => {
                            let total = entities.len() as int;
                            let succ = spec_succeeded_count(children);
                            if succ != total {
                                a matches ReconcileAction::DownloadProgress {
                                    succeeded,
                                    total: t,
                                } && succeeded == succ && t == total
                            } else if p != DownloadPhase::Succeeded {
                                a == ReconcileAction::Succeeded
                            } else {
                                a == ReconcileAction::NoOp
                            }
                        },
                    }
                }),
                None => r matches Err(e) && e matches Error::InvalidPhase(m) && m@ == ph@,
            }
        })
    })
    &&& ((r matches Ok(a) && a matches ReconcileAction::Succeeded) ==> configmap_exists)
}

/// The read phase of the Download controller: from the resource, the
/// metadata ConfigMap's existence, the query pod (if any), and the
/// entities with their observed child jobs (read only once the ConfigMap
/// exists), the one action to perform. An action of `Succeeded` is only
/// ever decided while the ConfigMap exists.
pub fn determine_action(
    instance: &Download,
    configmap_exists: bool,
    pod: &Option<PodSnapshot>,
    entities: &Vec<Entity>,
    children: &Vec<ChildJob>,
) -> (r: Result<ReconcileAction, Error>)
    requires
        children@.len() == entities@.len(),
    ensures
        spec_determine_ok(*instance, configmap_exists, *pod, entities@, children@, r),
{
    if instance.metadata.deletion_timestamp.is_some() {
        return Ok(ReconcileAction::Delete);
    }
    if needs_pending(instance) {
        return Ok(ReconcileAction::Pending);
    }
    if !configmap_exists {
        return determine_query_action(pod, false);
    }
    if pod.is_some() {
        return Ok(ReconcileAction::DeleteQueryPod);
    }
    let phase = match get_download_phase(instance) {
        Ok(p) => p,
        Err(e) => {
            return Err(e);
        },
    };
    Ok(determine_executor_action(phase, entities, children))
}

/// The status after the first sight of the resource.
pub fn pending(old: &Option<DownloadStatus>, now: String) -> (r: DownloadStatus)
    ensures
        r.phase matches Some(p) && p@ == DownloadPhase::Pending.spec_name(),
        r.message matches Some(m) && m@ == "the resource first appeared to the controller"@,
        r.last_updated == Some(now),
        r.query_start_time == spec_old_query_start(*old),
{
    DownloadStatus {
        phase: Some(String::from_str(DownloadPhase::Pending.to_str())),
        message: Some(String::from_str("the resource first appeared to the controller")),
        last_updated: Some(now),
        query_start_time: match old {
            Some(s) => dup_opt_string(&s.query_start_time),
            None => None,
        },
    }
}

/// The query start time carried over from the previous status.
pub open spec fn spec_old_query_start(old: Option<DownloadStatus>) -> Option<String> {
    match old {
        Some(s) => s.query_start_time,
        None => None,
    }
}

/// The status after the query pod has been created.
pub fn query_starting(old: &Option<DownloadStatus>, now: String) -> (r: DownloadStatus)
    ensures
        r.phase matches Some(p) && p@ == DownloadPhase::QueryStarting.spec_name(),
        r.message matches Some(m) && m@ == "the query pod is starting"@,
        r.last_updated == Some(now),
        r.query_start_time == spec_old_query_start(*old),
{
    DownloadStatus {
        phase: Some(String::from_str(DownloadPhase::QueryStarting.to_str())),
        message: Some(String::from_str("the query pod is starting")),
        last_updated: Some(now),
        query_start_time: match old {
            Some(s) => dup_opt_string(&s.query_start_time),
            None => None,
        },
    }
}

/// The status while the query pod is still pending: the phase is
/// already `Querying`, but no start time is on record yet.
pub fn querying(old: &Option<DownloadStatus>, now: String) -> (r: DownloadStatus)
    ensures
        r.phase matches Some(p) && p@ == DownloadPhase::Querying.spec_name(),
        r.message matches Some(m) && m@ == "querying in progress"@,
        r.last_updated == Some(now),
        r.query_start_time == spec_old_query_start(*old),
{
    DownloadStatus {
        phase: Some(String::from_str(DownloadPhase::Querying.to_str())),
        message: Some(String::from_str("querying in progress")),
        last_updated: Some(now),
        query_start_time: match old {
            Some(s) => dup_opt_string(&s.query_start_time),
            None => None,
        },
    }
}

/// The status while the query runs.
pub fn query_progress(now: String, start_time: String) -> (r: DownloadStatus)
    ensures
        r.phase matches Some(p) && p@ == DownloadPhase::Querying.spec_name(),
        r.message matches Some(m) && m@ == "querying in progress"@,
        r.last_updated == Some(now),
        r.query_start_time == Some(start_time),
{
    DownloadStatus {
        phase: Some(String::from_str(DownloadPhase::Querying.to_str())),
        message: Some(String::from_str("querying in progress")),
        last_updated: Some(now),
        query_start_time: Some(start_time),
    }
}

/// The status after the query failed, carrying the reason.
pub fn query_failure(old: &Option<DownloadStatus>, now: String, message: String) -> (r:
    DownloadStatus)
    ensures
        r.phase matches Some(p) && p@ == DownloadPhase::ErrQueryFailed.spec_name(),
        r.message == Some(message),
        r.last_updated == Some(now),
        r.query_start_time == spec_old_query_start(*old),
{
    DownloadStatus {
        phase: Some(String::from_str(DownloadPhase::ErrQueryFailed.to_str())),
        message: Some(message),
        last_updated: Some(now),
        query_start_time: match old {
            Some(s) => dup_opt_string(&s.query_start_time),
            None => None,
        },
    }
}

/// The progress message: `download in progress (S/T succeeded)`.
pub open spec fn spec_progress_message(succeeded: int, total: int) -> Seq<char> {
    "download in progress ("@ + spec_dec(succeeded) + "/"@ + spec_dec(total) + " succeeded)"@
}

/// The status while children are still downloading, carrying the counts.
pub fn download_progress(
    old: &Option<DownloadStatus>,
    now: String,
    succeeded: u32,
    total: u32,
) -> (r: DownloadStatus)
    ensures
        r.phase matches Some(p) && p@ == DownloadPhase::Downloading.spec_name(),
        r.message matches Some(m) && m@ == spec_progress_message(succeeded as int, total as int),
        r.last_updated == Some(now),
        r.query_start_time == spec_old_query_start(*old),
{
    let mut msg: Vec<char> = to_char_vec("download in progress (");
    push_all(&mut msg, &u32_to_chars(succeeded));
    push_all(&mut msg, &to_char_vec("/"));
    push_all(&mut msg, &u32_to_chars(total));
    push_all(&mut msg, &to_char_vec(" succeeded)"));
    assert(msg@ =~= spec_progress_message(succeeded as int, total as int));
    DownloadStatus {
        phase: Some(String::from_str(DownloadPhase::Downloading.to_str())),
        message: Some(chars_to_string(&msg)),
        last_updated: Some(now),
        query_start_time: match old {
            Some(s) => dup_opt_string(&s.query_start_time),
            None => None,
        },
    }
}

/// The status once every child has succeeded.
pub fn succeeded(old: &Option<DownloadStatus>, now: String) -> (r: DownloadStatus)
    ensures
        r.phase matches Some(p) && p@ == DownloadPhase::Succeeded.spec_name(),
        r.message matches Some(m) && m@ == "all downloads have succeeded"@,
        r.last_updated == Some(now),
        r.query_start_time == spec_old_query_start(*old),
{
    DownloadStatus {
        phase: Some(String::from_str(DownloadPhase::Succeeded.to_str())),
        message: Some(String::from_str("all downloads have succeeded")),
        last_updated: Some(now),
        query_start_time: match old {
            Some(s) => dup_opt_string(&s.query_start_time),
            None => None,
        },
    }
}

/// The slice of the cluster a Download reconcile reads and writes: the
/// phase, the finalizer, the query pod, whether the metadata ConfigMap
/// has been published, and the children in the aggregate.
#[derive(Debug, Clone, Copy, PartialEq, Eq, Structural)]
pub struct DownloadState {
    /// Deletion of the resource has been requested.
    pub deletion_requested: bool,
    /// The download's phase.
    pub phase: Option<DownloadPhase>,
    /// The finalizer is set on the resource.
    pub finalizer: bool,
    /// The query pod, if one exists.
    pub query_pod: Option<PodView>,
    /// The metadata ConfigMap has been published.
    pub configmap_exists: bool,
    /// Some resolved entity still lacks its child job.
    pub jobs_missing: bool,
    /// Children already succeeded.
    pub succeeded: u32,
    /// Children in total.
    pub total: u32,
}

/// The write phase an action amounts to, at the level of the model.
#[derive(Debug, Clone, Copy, PartialEq, Eq, Structural)]
pub enum DownloadStep {
    /// Write phase `Pending`.
    SetPending,
    /// Delete the query pod and remove the finalizer; children are
    /// collected by the cluster's garbage collector.
    DeleteAll,
    /// Delete just the query pod.
    DeleteQueryPod,
    /// Add the finalizer, create the query pod, write `QueryStarting`.
    CreateQueryPod,
    /// Write phase `ErrQueryFailed`; delete the pod only when recreated.
    SetQueryFailure {
        /// The pod is deleted so the next reconcile recreates it.
        recreate: bool,
    },
    /// Write phase `Querying`.
    SetQuerying,
    /// Add the finalizer and create one missing child job.
    CreateJob,
    /// Write phase `Downloading`.
    SetDownloading,
    /// Write phase `Succeeded`.
    SetSucceeded,
    /// Do nothing.
    Nothing,
}

/// The Download controller's decision over the model state: the same
/// decision tree as the read phase, with the strings abstracted away.
pub open spec fn spec_download_step(s: DownloadState) -> DownloadStep {
    if s.deletion_requested {
        DownloadStep::DeleteAll
    } else if s.phase is None {
        DownloadStep::SetPending
    } else if !s.configmap_exists {
        match s.query_pod {
            None => DownloadStep::CreateQueryPod,
            Some(PodView::Pending { unschedulable }) => if unschedulable {
                DownloadStep::SetQueryFailure { recreate: false }
            } else {
                DownloadStep::SetQuerying
            },
            Some(PodView::Running) => DownloadStep::SetQuerying,
            Some(PodView::Succeeded) => DownloadStep::SetQueryFailure { recreate: false },
            Some(PodView::Failed) => DownloadStep::SetQueryFailure { recreate: true },
        }
    } else if s.query_pod is Some {
        DownloadStep::DeleteQueryPod
    } else if s.jobs_missing {
        DownloadStep::CreateJob
    } else if s.succeeded != s.total {
        DownloadStep::SetDownloading
    } else if s.phase != Some(DownloadPhase::Succeeded) {
        DownloadStep::SetSucceeded
    } else {
        DownloadStep::Nothing
    }
}

/// What the write phase of an action does to the model state.
pub open spec fn spec_download_apply(s: DownloadState, a: DownloadStep) -> DownloadState {
    match a {
        DownloadStep::SetPending => DownloadState { phase: Some(DownloadPhase::Pending), ..s },
        DownloadStep::DeleteAll => DownloadState { query_pod: None, finalizer: false, ..s },
        DownloadStep::DeleteQueryPod => DownloadState { query_pod: None, ..s },
        DownloadStep::CreateQueryPod => DownloadState {
            finalizer: true,
            query_pod: Some(PodView::Pending { unschedulable: false }),
            phase: Some(DownloadPhase::QueryStarting),
            ..s
        },
        DownloadStep::SetQueryFailure { recreate } => DownloadState {
            phase: Some(DownloadPhase::ErrQueryFailed),
            query_pod: if recreate {
                None
            } else {
                s.query_pod
            },
            ..s
        },
        DownloadStep::SetQuerying => DownloadState { phase: Some(DownloadPhase::Querying), ..s },
        DownloadStep::CreateJob => DownloadState { finalizer: true, ..s },
        DownloadStep::SetDownloading => DownloadState {
            phase: Some(DownloadPhase::Downloading),
            ..s
        },
        DownloadStep::SetSucceeded => DownloadState { phase: Some(DownloadPhase::Succeeded), ..s },
        DownloadStep::Nothing => s,
    }
}

/// Decides one model-level step.
pub fn download_step(s: &DownloadState) -> (r: DownloadStep)
    ensures
        r == spec_download_step(*s),
{
    if s.deletion_requested {
        DownloadStep::DeleteAll
    } else if s.phase.is_none() {
        DownloadStep::SetPending
    } else if !s.configmap_exists {
        match s.query_pod {
            None => DownloadStep::CreateQueryPod,
            Some(PodView::Pending { unschedulable }) => if unschedulable {
                DownloadStep::SetQueryFailure { recreate: false }
            } else {
                DownloadStep::SetQuerying
            },
            Some(PodView::Running) => DownloadStep::SetQuerying,
            Some(PodView::Succeeded) => DownloadStep::SetQueryFailure { recreate: false },
            Some(PodView::Failed) => DownloadStep::SetQueryFailure { recreate: true },
        }
    } else if s.query_pod.is_some() {
        DownloadStep::DeleteQueryPod
    } else if s.jobs_missing {
        DownloadStep::CreateJob
    } else if s.succeeded != s.total {
        DownloadStep::SetDownloading
    } else if !(matches!(s.phase, Some(DownloadPhase::Succeeded))) {
        DownloadStep::SetSucceeded
    } else {
        DownloadStep::Nothing
    }
}

/// Applying the same reconcile action twice leaves the state where one
/// application put it: creations are absorbed by the 409-as-success
/// convention and status writes are absorbing.
pub proof fn lemma_download_apply_idempotent(s: DownloadState, a: DownloadStep)
    ensures
        spec_download_apply(spec_download_apply(s, a), a) == spec_download_apply(s, a),
{
}

/// The finalizer guards the children: whenever the query pod exists, the
/// finalizer is set, and every step the controller takes keeps it so.
pub open spec fn spec_finalizer_guards_children(s: DownloadState) -> bool {
    s.query_pod is Some ==> s.finalizer
}

/// One controller step preserves the finalizer guard.
pub proof fn lemma_download_finalizer_invariant(s: DownloadState)
    requires
        spec_finalizer_guards_children(s),
    ensures
        spec_finalizer_guards_children(spec_download_apply(s, spec_download_step(s))),
{
}

/// A download the controller marked `Succeeded` has its metadata
/// ConfigMap in place: the controller only writes that phase while the
/// ConfigMap exists, and none of its steps removes the ConfigMap.
pub open spec fn spec_succeeded_has_configmap(s: DownloadState) -> bool {
    s.phase == Some(DownloadPhase::Succeeded) ==> s.configmap_exists
}

/// One controller step preserves the ConfigMap guarantee.
pub proof fn lemma_succeeded_has_configmap(s: DownloadState)
    requires
        spec_succeeded_has_configmap(s),
    ensures
        spec_succeeded_has_configmap(spec_download_apply(s, spec_download_step(s))),
{
}

/// The model state an observation amounts to.
pub open spec fn spec_download_state_of(
    instance: Download,
    configmap_exists: bool,
    pod: Option<PodSnapshot>,
    entities: Seq<Entity>,
    children: Seq<ChildJob>,
) -> DownloadState {
    DownloadState {
        deletion_requested: instance.metadata.deletion_timestamp is Some,
        phase: if spec_needs_pending(instance) {
            None
        } else {
            spec_download_phase_of(instance.status->Some_0.phase->Some_0@)
        },
        // The decisions never read the finalizer; the guard invariant
        // tracks it on the model's own states.
        finalizer: true,
        query_pod: match pod {
            Some(p) => Some(crate::job_reconcile::spec_pod_view(p)),
            None => None,
        },
        configmap_exists,
        jobs_missing: spec_first_missing(children) is Some,
        succeeded: spec_succeeded_count(children) as u32,
        total: entities.len() as u32,
    }
}

/// The model step an action amounts to.
pub open spec fn spec_action_step(a: ReconcileAction) -> DownloadStep {
    match a {
        ReconcileAction::Pending => DownloadStep::SetPending,
        ReconcileAction::Delete => DownloadStep::DeleteAll,
        ReconcileAction::CreateQueryPod => DownloadStep::CreateQueryPod,
        ReconcileAction::DeleteQueryPod => DownloadStep::DeleteQueryPod,
        ReconcileAction::QueryFailure(f) => DownloadStep::SetQueryFailure { recreate: f.recreate },
        ReconcileAction::QueryProgress(_) => DownloadStep::SetQuerying,
        ReconcileAction::CreateExecutor(_) => DownloadStep::CreateJob,
        ReconcileAction::DownloadProgress { .. } => DownloadStep::SetDownloading,
        ReconcileAction::Succeeded => DownloadStep::SetSucceeded,
        ReconcileAction::NoOp => DownloadStep::Nothing,
    }
}

/// The observation is one the model describes: a pod has a phase, the
/// phase string parses, and the children fit the model's counters.
pub open spec fn spec_obs_consistent(
    instance: Download,
    pod: Option<PodSnapshot>,
    entities: Seq<Entity>,
    children: Seq<ChildJob>,
) -> bool {
    &&& (pod matches Some(p) ==> p.phase is Some)
    &&& (!spec_needs_pending(instance)
        ==> spec_download_phase_of(instance.status->Some_0.phase->Some_0@) is Some)
    &&& children.len() == entities.len()
    &&& entities.len() <= u32::MAX
}

/// The read phase agrees with the model machine: on every observation
/// the model describes, the action `determine_action` decides amounts to
/// exactly the step the model decides, so the laws proved of the model
/// speak about the controller's real decisions.
pub proof fn lemma_determine_matches_model(
    instance: Download,
    configmap_exists: bool,
    pod: Option<PodSnapshot>,
    entities: Seq<Entity>,
    children: Seq<ChildJob>,
    r: Result<ReconcileAction, Error>,
)
    requires
        spec_obs_consistent(instance, pod, entities, children),
        spec_determine_ok(instance, configmap_exists, pod, entities, children, r),
        r is Ok,
    ensures
        spec_action_step(r->Ok_0) == spec_download_step(
            spec_download_state_of(instance, configmap_exists, pod, entities, children),
        ),
{
    lemma_succeeded_count_le(children);
}

/// Taking one more child adds its own contribution to the count and
/// keeps the first-missing index.
proof fn lemma_take_step(children: Seq<ChildJob>, i: int)
    requires
        0 <= i < children.len(),
    ensures
        spec_succeeded_count(children.take(i + 1)) == spec_succeeded_count(children.take(i)) + (
        if spec_child_succeeded(children[i]) {
            1int
        } else {
            0int
        }),
        spec_first_missing(children.take(i)) is None && !(children[i] is Missing)
            ==> spec_first_missing(children.take(i + 1)) is None,
    decreases i,
{
    if i == 0 {
        assert(children.take(1) =~= seq![children[0]]);
        assert(children.take(0) =~= Seq::<ChildJob>::empty());
        assert(children.take(1).drop_first() =~= Seq::<ChildJob>::empty());
    } else {
        lemma_take_step(children.drop_first(), i - 1);
        assert(children.take(i + 1).drop_first() =~= children.drop_first().take(i));
        assert(children.take(i).drop_first() =~= children.drop_first().take(i - 1));
        assert(children.drop_first()[i - 1] == children[i]);
    }
}

} // verus!
