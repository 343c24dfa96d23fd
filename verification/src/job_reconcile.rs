//! The job controller's read phase: from what was observed of the job
//! resource, its pod and the bucket, decide the one action the write
//! phase performs. The decisions are pure; the unverified shell gathers
//! the observations and carries the actions out. A small state machine
//! over the same decisions carries the controller's invariants: acting
//! twice on one observation changes nothing more, and the finalizer
//! guards the pod from the moment it exists.

use vstd::prelude::*;
use crate::error::Error;
use crate::executor::Executor;
use crate::executor::ExecutorPhase;
use crate::executor::ExecutorStatus;
use crate::k8s_model::PodSnapshot;
use crate::k8s_model::check_pod_scheduling_error;
use crate::k8s_model::spec_first_scheduling_failure;
use crate::k8s_model::spec_scheduling_message;
use crate::pod_model::DownloadPodOptions;
use crate::text::dup_opt_string;
use crate::text::str_eq;

verus! {

/// Options of a progress update: the pod's start time, once known.
#[derive(Debug, PartialEq, Eq, Clone)]
pub struct ProgressOptions {
    /// When the download pod started, if it has.
    pub start_time: Option<String>,
}

/// Options of a failure report.
#[derive(Debug, PartialEq, Eq, Clone)]
pub struct FailureOptions {
    /// The human-readable reason.
    pub message: String,
    /// Whether the pod is deleted so the next reconcile recreates it;
    /// scheduling failures are left for the user to resolve.
    pub recreate: bool,
}

/// The one action a reconcile of the job resource performs.
#[derive(Debug, PartialEq, Eq, Clone)]
pub enum ExecutorAction {
    /// First sight of the resource: set the phase to `Pending`.
    Pending,
    /// Create the download pod for the missing parts.
    Create(DownloadPodOptions),
    /// Delete the download pod and remove the finalizer.
    Delete,
    /// Report download progress.
    Progress(ProgressOptions),
    /// All requested parts are stored: mark the job done and clean up.
    Succeeded,
    /// Report a failure.
    Failure(FailureOptions),
    /// Nothing to do.
    NoOp,
}

/// The resource still lacks a written phase, so the first action is to
/// set it to `Pending`.
pub open spec fn spec_needs_pending(instance: Executor) -> bool {
    match instance.status {
        None => true,
        Some(s) => s.phase is None,
    }
}

/// Whether the resource needs its phase set to `Pending`, the first
/// action for any managed resource.
pub fn needs_pending(instance: &Executor) -> (r: bool)
    ensures
        r == spec_needs_pending(*instance),
{
    match &instance.status {
        None => true,
        Some(s) => s.phase.is_none(),
    }
}

/// The phase named by a persisted phase string.
pub open spec fn spec_phase_of(s: Seq<char>) -> Option<ExecutorPhase> {
    if s == "Pending"@ {
        Some(ExecutorPhase::Pending)
    } else if s == "Starting"@ {
        Some(ExecutorPhase::Starting)
    } else if s == "Running"@ {
        Some(ExecutorPhase::Running)
    } else if s == "Succeeded"@ {
        Some(ExecutorPhase::Succeeded)
    } else if s == "Failed"@ {
        Some(ExecutorPhase::Failed)
    } else {
        None
    }
}

/// Reads the job's phase out of its status. A phase string outside the
/// enum is surfaced as `InvalidPhase`.
pub fn get_phase(instance: &Executor) -> (r: Result<ExecutorPhase, Error>)
    requires
        instance.status matches Some(s) && s.phase is Some,
    ensures
        ({
            let ph = instance.status->Some_0.phase->Some_0;
            match spec_phase_of(ph@) {
                Some(p) => r == Ok::<ExecutorPhase, Error>(p),
                None => r matches Err(e) && e matches Error::InvalidPhase(m) && m@ == ph@,
            }
        }),
{
    let ph = match &instance.status {
        Some(s) => match &s.phase {
            Some(p) => p,
            None => unreached(),
        },
        None => unreached(),
    };
    match parse_phase(ph) {
        Some(p) => Ok(p),
        None => Err(Error::InvalidPhase(ph.clone())),
    }
}

/// Parses a phase string against the enum.
fn parse_phase(s: &String) -> (r: Option<ExecutorPhase>)
    ensures
        r == spec_phase_of(s@),
{
    if str_eq(s.as_str(), "Pending") {
        Some(ExecutorPhase::Pending)
    } else if str_eq(s.as_str(), "Starting") {
        Some(ExecutorPhase::Starting)
    } else if str_eq(s.as_str(), "Running") {
        Some(ExecutorPhase::Running)
    } else if str_eq(s.as_str(), "Succeeded") {
        Some(ExecutorPhase::Succeeded)
    } else if str_eq(s.as_str(), "Failed") {
        Some(ExecutorPhase::Failed)
    } else {
        None
    }
}

/// What `determine_download_pod_action` promises: the action that follows
/// from the observed pod. A pod pending without a scheduling failure, or
/// running, reports progress; a scheduling failure and any terminal
/// failure report the reason, and only the latter has the pod recreated;
/// a pod that succeeded completes the job.
pub open spec fn spec_pod_action_ok(pod: PodSnapshot, r: Result<ExecutorAction, Error>) -> bool {
    match pod.phase {
        None => r matches Err(e) && e matches Error::UnknownError(_),
        Some(ph) => if ph@ == "Pending"@ {
            match spec_first_scheduling_failure(pod.conditions@) {
                Some(c) => r matches Ok(a) && a matches ExecutorAction::Failure(f) && !f.recreate
                    && f.message@ == "download pod is not scheduled: "@ + spec_scheduling_message(c),
                None => r matches Ok(a) && a matches ExecutorAction::Progress(p)
                    && p.start_time is None,
            }
        } else if ph@ == "Running"@ {
            r matches Ok(a) && a matches ExecutorAction::Progress(p)
                && p.start_time == pod.creation_timestamp
        } else if ph@ == "Succeeded"@ {
            r == Ok::<ExecutorAction, Error>(ExecutorAction::Succeeded)
        } else {
            r matches Ok(a) && a matches ExecutorAction::Failure(f) && f.recreate
                && f.message@ == "pod is in phase "@ + ph@
        },
    }
}

/// Decides the action while the download pod exists, from the pod's
/// observed status.
pub fn determine_download_pod_action(pod: &PodSnapshot) -> (r: Result<ExecutorAction, Error>)
    ensures
        spec_pod_action_ok(*pod, r),
{
    let ph = match &pod.phase {
        Some(p) => p,
        None => {
            return Err(Error::UnknownError(String::from_str("download pod has no phase")));
        },
    };
    if str_eq(ph.as_str(), "Pending") {
        match check_pod_scheduling_error(pod) {
            Some(m) => {
                let mut message = String::from_str("download pod is not scheduled: ");
                message.append(m.as_str());
                Ok(ExecutorAction::Failure(FailureOptions { message, recreate: false }))
            },
            None => Ok(ExecutorAction::Progress(ProgressOptions { start_time: None })),
        }
    } else if str_eq(ph.as_str(), "Running") {
        Ok(ExecutorAction::Progress(ProgressOptions {
            start_time: dup_opt_string(&pod.creation_timestamp),
        }))
    } else if str_eq(ph.as_str(), "Succeeded") {
        Ok(ExecutorAction::Succeeded)
    } else {
        let mut message = String::from_str("pod is in phase ");
        message.append(ph.as_str());
        Ok(ExecutorAction::Failure(FailureOptions { message, recreate: true }))
    }
}

/// Decides the action once nothing is left to download: first mark the
/// job succeeded, then collect a pod that still lingers, then rest.
pub fn determine_download_success_action(phase: ExecutorPhase, pod_exists: bool) -> (r: Option<
    ExecutorAction,
>)
    ensures
        r == (if phase != ExecutorPhase::Succeeded {
            Some(ExecutorAction::Succeeded)
        } else if pod_exists {
            Some(ExecutorAction::Delete)
        } else {
            None::<ExecutorAction>
        }),
{
    if !matches!(phase, ExecutorPhase::Succeeded) {
        Some(ExecutorAction::Succeeded)
    } else if pod_exists {
        Some(ExecutorAction::Delete)
    } else {
        None
    }
}

/// The read phase of the job controller: from the resource, the pod (if
/// any) and the bucket checks (made only when there is no pod), the one
/// action to perform.
pub fn determine_action(
    instance: &Executor,
    pod: &Option<PodSnapshot>,
    downloads: &Option<DownloadPodOptions>,
) -> (r: Result<ExecutorAction, Error>)
    requires
        pod is None ==> downloads is Some,
    ensures
        spec_determine_ok(*instance, *pod, *downloads, r),
{
    if instance.metadata.deletion_timestamp.is_some() {
        return Ok(ExecutorAction::Delete);
    }
    if needs_pending(instance) {
        return Ok(ExecutorAction::Pending);
    }
    match pod {
        Some(p) => determine_download_pod_action(p),
        None => {
            let o = match downloads {
                Some(o) => o,
                None => unreached(),
            };
            if o.download_video || o.download_thumbnail {
                return Ok(ExecutorAction::Create(*o));
            }
            let phase = match get_phase(instance) {
                Ok(p) => p,
                Err(e) => {
                    return Err(e);
                },
            };
            match determine_download_success_action(phase, false) {
                Some(a) => Ok(a),
                None => Ok(ExecutorAction::NoOp),
            }
        },
    }
}

/// Derives which parts the download pod must fetch from what the bucket
/// checks found: a part is fetched exactly when it is configured and the
/// bucket does not already hold it; `None` stands for a part that is not
/// configured at all.
pub fn download_pod_options(
    video_stored: Option<bool>,
    thumbnail_stored: Option<bool>,
) -> (r: DownloadPodOptions)
    ensures
        r.download_video == (video_stored == Some(false)),
        r.download_thumbnail == (thumbnail_stored == Some(false)),
{
    DownloadPodOptions {
        download_video: matches!(video_stored, Some(false)),
        download_thumbnail: matches!(thumbnail_stored, Some(false)),
    }
}

/// The abstract view of an observed pod: what of its status the
/// decisions read.
pub open spec fn spec_pod_view(p: PodSnapshot) -> PodView {
    let ph = p.phase->Some_0;
    if ph@ == "Pending"@ {
        PodView::Pending { unschedulable: spec_first_scheduling_failure(p.conditions@) is Some }
    } else if ph@ == "Running"@ {
        PodView::Running
    } else if ph@ == "Succeeded"@ {
        PodView::Succeeded
    } else {
        PodView::Failed
    }
}

/// The model state an observation amounts to.
pub open spec fn spec_job_state_of(
    instance: Executor,
    pod: Option<PodSnapshot>,
    downloads: Option<DownloadPodOptions>,
) -> JobState {
    JobState {
        deletion_requested: instance.metadata.deletion_timestamp is Some,
        phase: if spec_needs_pending(instance) {
            None
        } else {
            spec_phase_of(instance.status->Some_0.phase->Some_0@)
        },
        // The decisions never read the finalizer; the guard invariant
        // tracks it on the model's own states.
        finalizer: true,
        pod: match pod {
            Some(p) => Some(spec_pod_view(p)),
            None => None,
        },
        needs_video: downloads matches Some(o) && o.download_video,
        needs_thumbnail: downloads matches Some(o) && o.download_thumbnail,
    }
}

/// The model step an action amounts to.
pub open spec fn spec_action_step(a: ExecutorAction) -> JobStep {
    match a {
        ExecutorAction::Pending => JobStep::SetPending,
        ExecutorAction::Create(o) => JobStep::CreatePod {
            download_video: o.download_video,
            download_thumbnail: o.download_thumbnail,
        },
        ExecutorAction::Delete => JobStep::DeletePod,
        ExecutorAction::Progress(p) => JobStep::SetProgress { has_start: p.start_time is Some },
        ExecutorAction::Succeeded => JobStep::SetSucceeded,
        ExecutorAction::Failure(f) => JobStep::SetFailure { recreate: f.recreate },
        ExecutorAction::NoOp => JobStep::Nothing,
    }
}

/// The observation is one the model describes: a pod has a phase, a
/// running pod carries its creation timestamp, and whatever phase string
/// the status holds parses.
pub open spec fn spec_obs_consistent(instance: Executor, pod: Option<PodSnapshot>) -> bool {
    &&& (match pod {
        Some(p) => {
            &&& p.phase is Some
            &&& (p.phase->Some_0@ == "Running"@ ==> p.creation_timestamp is Some)
        },
        None => true,
    })
    &&& (!spec_needs_pending(instance)
        ==> spec_phase_of(instance.status->Some_0.phase->Some_0@) is Some)
}

/// The read phase agrees with the model machine: on every observation
/// the model describes, the action `determine_action` decides amounts to
/// exactly the step the model decides, so the laws proved of the model
/// speak about the controller's real decisions.
pub proof fn lemma_determine_matches_model(
    instance: Executor,
    pod: Option<PodSnapshot>,
    downloads: Option<DownloadPodOptions>,
    r: Result<ExecutorAction, Error>,
)
    requires
        pod is None ==> downloads is Some,
        spec_obs_consistent(instance, pod),
        spec_determine_ok(instance, pod, downloads, r),
        r is Ok,
    ensures
        spec_action_step(r->Ok_0) == spec_job_step(spec_job_state_of(instance, pod, downloads)),
{
}

/// What `determine_action` promises, gathered so the model-agreement
/// law can name it.
pub open spec fn spec_determine_ok(
    instance: Executor,
    pod: Option<PodSnapshot>,
    downloads: Option<DownloadPodOptions>,
    r: Result<ExecutorAction, Error>,
) -> bool {
    &&& (instance.metadata.deletion_timestamp is Some
        ==> r == Ok::<ExecutorAction, Error>(ExecutorAction::Delete))
    &&& (instance.metadata.deletion_timestamp is None && spec_needs_pending(instance)
        ==> r == Ok::<ExecutorAction, Error>(ExecutorAction::Pending))
    &&& ((instance.metadata.deletion_timestamp is None && !spec_needs_pending(instance))
        ==> match pod {
        Some(p) => spec_pod_action_ok(p, r),
        None => {
            let o = downloads->Some_0;
            if o.download_video || o.download_thumbnail {
                r == Ok::<ExecutorAction, Error>(ExecutorAction::Create(o))
            } else {
                ({
                    let ph = instance.status->Some_0.phase->Some_0;
                    match spec_phase_of(ph@) {
                        Some(p) => r == Ok::<ExecutorAction, Error>(
                            if p != ExecutorPhase::Succeeded {
                                ExecutorAction::Succeeded
                            } else {
                                ExecutorAction::NoOp
                            },
                        ),
                        None => r matches Err(e) && e matches Error::InvalidPhase(m) && m@ == ph@,
                    }
                })
            }
        },
    })
}

/// The fields every status update leaves alone unless it says otherwise.
pub open spec fn spec_old_start_time(old: Option<ExecutorStatus>) -> Option<String> {
    match old {
        Some(s) => s.start_time,
        None => None,
    }
}

/// The status after the first sight of the resource.
pub fn pending(old: &Option<ExecutorStatus>, now: String) -> (r: ExecutorStatus)
    ensures
        r.phase matches Some(p) && p@ == ExecutorPhase::Pending.spec_name(),
        r.message matches Some(m) && m@ == "the resource first appeared to the controller"@,
        r.last_updated == Some(now),
        r.start_time == spec_old_start_time(*old),
{
    ExecutorStatus {
        phase: Some(String::from_str(ExecutorPhase::Pending.to_str())),
        message: Some(String::from_str("the resource first appeared to the controller")),
        last_updated: Some(now),
        start_time: match old {
            Some(s) => dup_opt_string(&s.start_time),
            None => None,
        },
    }
}

/// The status after the download pod has been created.
pub fn starting(old: &Option<ExecutorStatus>, now: String) -> (r: ExecutorStatus)
    ensures
        r.phase matches Some(p) && p@ == ExecutorPhase::Starting.spec_name(),
        r.message matches Some(m) && m@ == "the download pod is starting"@,
        r.last_updated == Some(now),
        r.start_time == spec_old_start_time(*old),
{
    ExecutorStatus {
        phase: Some(String::from_str(ExecutorPhase::Starting.to_str())),
        message: Some(String::from_str("the download pod is starting")),
        last_updated: Some(now),
        start_time: match old {
            Some(s) => dup_opt_string(&s.start_time),
            None => None,
        },
    }
}

/// The status while the downloads are running.
pub fn progress(now: String, start_time: String) -> (r: ExecutorStatus)
    ensures
        r.phase matches Some(p) && p@ == ExecutorPhase::Running.spec_name(),
        r.message matches Some(m) && m@ == "download tasks are in progress"@,
        r.last_updated == Some(now),
        r.start_time == Some(start_time),
{
    ExecutorStatus {
        phase: Some(String::from_str(ExecutorPhase::Running.to_str())),
        message: Some(String::from_str("download tasks are in progress")),
        last_updated: Some(now),
        start_time: Some(start_time),
    }
}

/// The status once every requested download is stored.
pub fn success(old: &Option<ExecutorStatus>, now: String) -> (r: ExecutorStatus)
    ensures
        r.phase matches Some(p) && p@ == ExecutorPhase::Succeeded.spec_name(),
        r.message matches Some(m) && m@ == "download tasks completed without error"@,
        r.last_updated == Some(now),
        r.start_time == spec_old_start_time(*old),
{
    ExecutorStatus {
        phase: Some(String::from_str(ExecutorPhase::Succeeded.to_str())),
        message: Some(String::from_str("download tasks completed without error")),
        last_updated: Some(now),
        start_time: match old {
            Some(s) => dup_opt_string(&s.start_time),
            None => None,
        },
    }
}

/// The status after a failure, carrying the reason.
pub fn failure(old: &Option<ExecutorStatus>, now: String, options: FailureOptions) -> (r:
    ExecutorStatus)
    ensures
        r.phase matches Some(p) && p@ == ExecutorPhase::Failed.spec_name(),
        r.message == Some(options.message),
        r.last_updated == Some(now),
        r.start_time == spec_old_start_time(*old),
{
    ExecutorStatus {
        phase: Some(String::from_str(ExecutorPhase::Failed.to_str())),
        message: Some(options.message),
        last_updated: Some(now),
        start_time: match old {
            Some(s) => dup_opt_string(&s.start_time),
            None => None,
        },
    }
}

/// The abstract view of the job's pod, as far as the decisions read it.
#[derive(Debug, Clone, Copy, PartialEq, Eq, Structural)]
pub enum PodView {
    /// The pod is pending; `unschedulable` records a scheduling failure.
    Pending {
        /// A `PodScheduled=False` condition was observed.
        unschedulable: bool,
    },
    /// The pod is running.
    Running,
    /// The pod succeeded.
    Succeeded,
    /// The pod ended in any other terminal state.
    Failed,
}

/// The slice of the cluster a job reconcile reads and writes: the job's
/// phase, its finalizer, its pod, and which parts the bucket still
/// lacks.
#[derive(Debug, Clone, Copy, PartialEq, Eq, Structural)]
pub struct JobState {
    /// Deletion of the resource has been requested.
    pub deletion_requested: bool,
    /// The job's phase.
    pub phase: Option<ExecutorPhase>,
    /// The finalizer is set on the job.
    pub finalizer: bool,
    /// The job's pod, if one exists.
    pub pod: Option<PodView>,
    /// The bucket still lacks the video.
    pub needs_video: bool,
    /// The bucket still lacks the thumbnail.
    pub needs_thumbnail: bool,
}

/// The write phase an action amounts to, at the level of the model.
#[derive(Debug, Clone, Copy, PartialEq, Eq, Structural)]
pub enum JobStep {
    /// Write phase `Pending`.
    SetPending,
    /// Add the finalizer, create the pod, write phase `Starting`.
    CreatePod {
        /// Fetch the video.
        download_video: bool,
        /// Fetch the thumbnail.
        download_thumbnail: bool,
    },
    /// Delete the pod and remove the finalizer.
    DeletePod,
    /// Write the progress phase.
    SetProgress {
        /// The pod has a start time, so the phase is `Running`.
        has_start: bool,
    },
    /// Write phase `Succeeded`, delete the pod, remove the finalizer.
    SetSucceeded,
    /// Write phase `Failed`; delete the pod only when it is recreated.
    SetFailure {
        /// The pod is deleted so the next reconcile recreates it.
        recreate: bool,
    },
    /// Do nothing.
    Nothing,
}

/// The job controller's decision over the model state: the same decision
/// tree as the read phase, with the strings abstracted away.
pub open spec fn spec_job_step(s: JobState) -> JobStep {
    if s.deletion_requested {
        JobStep::DeletePod
    } else if s.phase is None {
        JobStep::SetPending
    } else {
        match s.pod {
            Some(PodView::Pending { unschedulable }) => if unschedulable {
                JobStep::SetFailure { recreate: false }
            } else {
                JobStep::SetProgress { has_start: false }
            },
            Some(PodView::Running) => JobStep::SetProgress { has_start: true },
            Some(PodView::Succeeded) => JobStep::SetSucceeded,
            Some(PodView::Failed) => JobStep::SetFailure { recreate: true },
            None => if s.needs_video || s.needs_thumbnail {
                JobStep::CreatePod {
                    download_video: s.needs_video,
                    download_thumbnail: s.needs_thumbnail,
                }
            } else if s.phase != Some(ExecutorPhase::Succeeded) {
                JobStep::SetSucceeded
            } else {
                JobStep::Nothing
            },
        }
    }
}

/// Decides one model-level step.
pub fn job_step(s: &JobState) -> (r: JobStep)
    ensures
        r == spec_job_step(*s),
{
    if s.deletion_requested {
        JobStep::DeletePod
    } else if s.phase.is_none() {
        JobStep::SetPending
    } else {
        match s.pod {
            Some(PodView::Pending { unschedulable }) => if unschedulable {
                JobStep::SetFailure { recreate: false }
            } else {
                JobStep::SetProgress { has_start: false }
            },
            Some(PodView::Running) => JobStep::SetProgress { has_start: true },
            Some(PodView::Succeeded) => JobStep::SetSucceeded,
            Some(PodView::Failed) => JobStep::SetFailure { recreate: true },
            None => if s.needs_video || s.needs_thumbnail {
                JobStep::CreatePod {
                    download_video: s.needs_video,
                    download_thumbnail: s.needs_thumbnail,
                }
            } else if !(matches!(s.phase, Some(ExecutorPhase::Succeeded))) {
                JobStep::SetSucceeded
            } else {
                JobStep::Nothing
            },
        }
    }
}

/// What the write phase of an action does to the model state. The
/// finalizer is added before a pod is created and removed only after the
/// pod is gone.
pub open spec fn spec_job_apply(s: JobState, a: JobStep) -> JobState {
    match a {
        JobStep::SetPending => JobState { phase: Some(ExecutorPhase::Pending), ..s },
        JobStep::CreatePod { download_video, download_thumbnail } => JobState {
            finalizer: true,
            pod: Some(PodView::Pending { unschedulable: false }),
            phase: Some(ExecutorPhase::Starting),
            ..s
        },
        JobStep::DeletePod => JobState { pod: None, finalizer: false, ..s },
        JobStep::SetProgress { has_start } => JobState {
            phase: Some(
                if has_start {
                    ExecutorPhase::Running
                } else {
                    ExecutorPhase::Starting
                },
            ),
            ..s
        },
        JobStep::SetSucceeded => JobState {
            phase: Some(ExecutorPhase::Succeeded),
            pod: None,
            finalizer: false,
            ..s
        },
        JobStep::SetFailure { recreate } => JobState {
            phase: Some(ExecutorPhase::Failed),
            pod: if recreate {
                None
            } else {
                s.pod
            },
            ..s
        },
        JobStep::Nothing => s,
    }
}

/// Applying the same reconcile action twice leaves the state where one
/// application put it: no action creates a second pod or a second child,
/// and the status writes are absorbing.
pub proof fn lemma_job_apply_idempotent(s: JobState, a: JobStep)
    ensures
        spec_job_apply(spec_job_apply(s, a), a) == spec_job_apply(s, a),
{
}

/// The finalizer guards the pod: whenever the pod exists, the finalizer
/// is set, and every step the controller takes keeps it so. The
/// finalizer is in place from the first creation until the pod is gone.
pub open spec fn spec_finalizer_guards_pod(s: JobState) -> bool {
    s.pod is Some ==> s.finalizer
}

/// One controller step preserves the finalizer guard.
pub proof fn lemma_finalizer_invariant(s: JobState)
    requires
        spec_finalizer_guards_pod(s),
    ensures
        spec_finalizer_guards_pod(spec_job_apply(s, spec_job_step(s))),
{
}

} // verus!
