//! Tests of the two controllers' decision logic and of the model state
//! machines behind their invariants.

use ytdl_operator::download::{Download, DownloadPhase, DownloadSpec, DownloadStatus};
use ytdl_operator::download_reconcile as dl;
use ytdl_operator::download_reconcile::{ChildJob, ReconcileAction};
use ytdl_operator::error::Error;
use ytdl_operator::executor::{Executor, ExecutorPhase, ExecutorSpec, ExecutorStatus};
use ytdl_operator::job_reconcile as job;
use ytdl_operator::job_reconcile::{ExecutorAction, JobState, JobStep, PodView};
use ytdl_operator::k8s_model::{ObjectMetaModel, PodCondition, PodSnapshot};
use ytdl_operator::metadata::Entity;
use ytdl_operator::pod_model::DownloadPodOptions;

fn meta(name: &str) -> ObjectMetaModel {
    ObjectMetaModel {
        name: String::from(name),
        namespace: String::from("default"),
        uid: String::from("uid-1"),
        deletion_timestamp: None,
        finalizers: Vec::new(),
        owner_references: Vec::new(),
        labels: Vec::new(),
    }
}

fn executor_with_phase(phase: &str) -> Executor {
    Executor {
        metadata: meta("dl-abc"),
        spec: ExecutorSpec::default(),
        status: Some(ExecutorStatus {
            phase: Some(String::from(phase)),
            message: None,
            start_time: None,
            last_updated: None,
        }),
    }
}

fn download_with_phase(phase: &str) -> Download {
    Download {
        metadata: meta("dl"),
        spec: DownloadSpec::default(),
        status: Some(DownloadStatus {
            phase: Some(String::from(phase)),
            message: None,
            last_updated: None,
            query_start_time: None,
        }),
    }
}

fn pod_in_phase(phase: &str) -> PodSnapshot {
    PodSnapshot {
        phase: Some(String::from(phase)),
        conditions: Vec::new(),
        creation_timestamp: Some(String::from("2023-01-01T00:00:00Z")),
    }
}

#[test]
fn scheduling_failure_is_reported_and_not_recreated() {
    let pod = PodSnapshot {
        phase: Some(String::from("Pending")),
        conditions: vec![PodCondition {
            type_: String::from("PodScheduled"),
            status: String::from("False"),
            message: Some(String::from("no nodes")),
        }],
        creation_timestamp: None,
    };
    match job::determine_download_pod_action(&pod).unwrap() {
        ExecutorAction::Failure(f) => {
            assert!(f.message.contains("no nodes"));
            assert!(!f.recreate);
        }
        a => panic!("unexpected action {:?}", a),
    }
}

#[test]
fn pending_pod_without_error_reports_progress() {
    let pod = pod_in_phase("Pending");
    match job::determine_download_pod_action(&pod).unwrap() {
        ExecutorAction::Progress(p) => assert_eq!(p.start_time, None),
        a => panic!("unexpected action {:?}", a),
    }
}

#[test]
fn running_pod_reports_progress_with_start_time() {
    let pod = pod_in_phase("Running");
    match job::determine_download_pod_action(&pod).unwrap() {
        ExecutorAction::Progress(p) => {
            assert_eq!(p.start_time, Some(String::from("2023-01-01T00:00:00Z")))
        }
        a => panic!("unexpected action {:?}", a),
    }
}

#[test]
fn succeeded_pod_completes_the_job() {
    let pod = pod_in_phase("Succeeded");
    assert_eq!(
        job::determine_download_pod_action(&pod).unwrap(),
        ExecutorAction::Succeeded
    );
}

#[test]
fn other_pod_phase_fails_and_recreates() {
    let pod = pod_in_phase("Evicted");
    match job::determine_download_pod_action(&pod).unwrap() {
        ExecutorAction::Failure(f) => {
            assert_eq!(f.message, "pod is in phase Evicted");
            assert!(f.recreate);
        }
        a => panic!("unexpected action {:?}", a),
    }
}

#[test]
fn pod_without_phase_is_an_unknown_error() {
    let pod = PodSnapshot {
        phase: None,
        conditions: Vec::new(),
        creation_timestamp: None,
    };
    assert!(matches!(
        job::determine_download_pod_action(&pod),
        Err(Error::UnknownError(_))
    ));
}

#[test]
fn already_stored_content_succeeds_without_a_pod() {
    // Everything is already in the bucket: no pod is ever created and the
    // job goes straight to Succeeded on its first full reconcile.
    let instance = executor_with_phase("Pending");
    let r = job::determine_action(
        &instance,
        &None,
        &Some(DownloadPodOptions {
            download_video: false,
            download_thumbnail: false,
        }),
    );
    assert_eq!(r.unwrap(), ExecutorAction::Succeeded);
}

#[test]
fn missing_content_creates_the_pod() {
    let instance = executor_with_phase("Pending");
    let opts = DownloadPodOptions {
        download_video: true,
        download_thumbnail: false,
    };
    let r = job::determine_action(&instance, &None, &Some(opts));
    assert_eq!(r.unwrap(), ExecutorAction::Create(opts));
}

#[test]
fn deletion_requested_deletes_children() {
    let mut instance = executor_with_phase("Running");
    instance.metadata.deletion_timestamp = Some(String::from("2023-01-01T00:00:00Z"));
    let r = job::determine_action(&instance, &None, &Some(DownloadPodOptions {
        download_video: false,
        download_thumbnail: false,
    }));
    assert_eq!(r.unwrap(), ExecutorAction::Delete);
}

#[test]
fn missing_status_asks_for_pending() {
    let mut instance = executor_with_phase("Running");
    instance.status = None;
    let r = job::determine_action(&instance, &None, &Some(DownloadPodOptions {
        download_video: false,
        download_thumbnail: false,
    }));
    assert_eq!(r.unwrap(), ExecutorAction::Pending);
}

#[test]
fn invalid_phase_is_surfaced() {
    let instance = executor_with_phase("Bogus");
    match job::get_phase(&instance) {
        Err(Error::InvalidPhase(m)) => assert_eq!(m, "Bogus"),
        r => panic!("unexpected result {:?}", r),
    }
}

#[test]
fn job_model_step_is_idempotent_on_a_sample() {
    let s = JobState {
        deletion_requested: false,
        phase: Some(ExecutorPhase::Pending),
        finalizer: false,
        pod: None,
        needs_video: true,
        needs_thumbnail: false,
    };
    let a = job::job_step(&s);
    assert_eq!(
        a,
        JobStep::CreatePod {
            download_video: true,
            download_thumbnail: false
        }
    );
}

#[test]
fn entity_aggregation_creates_first_missing_child() {
    let entities = vec![
        Entity { id: String::from("x"), metadata: String::from("{\"id\":\"x\"}") },
        Entity { id: String::from("y"), metadata: String::from("{\"id\":\"y\"}") },
        Entity { id: String::from("z"), metadata: String::from("{\"id\":\"z\"}") },
    ];
    let children = vec![
        ChildJob::Present { phase: Some(String::from("Succeeded")) },
        ChildJob::Missing,
        ChildJob::Missing,
    ];
    match dl::determine_executor_action(DownloadPhase::Querying, &entities, &children) {
        ReconcileAction::CreateExecutor(e) => assert_eq!(e.id, "y"),
        a => panic!("unexpected action {:?}", a),
    }
}

#[test]
fn entity_aggregation_reports_progress() {
    let entities = vec![
        Entity { id: String::from("x"), metadata: String::from("{\"id\":\"x\"}") },
        Entity { id: String::from("y"), metadata: String::from("{\"id\":\"y\"}") },
        Entity { id: String::from("z"), metadata: String::from("{\"id\":\"z\"}") },
    ];
    let children = vec![
        ChildJob::Present { phase: Some(String::from("Succeeded")) },
        ChildJob::Present { phase: Some(String::from("Succeeded")) },
        ChildJob::Present { phase: Some(String::from("Running")) },
    ];
    assert_eq!(
        dl::determine_executor_action(DownloadPhase::Downloading, &entities, &children),
        ReconcileAction::DownloadProgress { succeeded: 2, total: 3 }
    );
}

#[test]
fn entity_aggregation_succeeds_once() {
    let entities = vec![Entity { id: String::from("x"), metadata: String::from("{\"id\":\"x\"}") }];
    let children = vec![ChildJob::Present { phase: Some(String::from("Succeeded")) }];
    assert_eq!(
        dl::determine_executor_action(DownloadPhase::Downloading, &entities, &children),
        ReconcileAction::Succeeded
    );
    assert_eq!(
        dl::determine_executor_action(DownloadPhase::Succeeded, &entities, &children),
        ReconcileAction::NoOp
    );
}

#[test]
fn query_pod_succeeded_with_configmap_is_deleted() {
    let pod = pod_in_phase("Succeeded");
    assert_eq!(
        dl::determine_query_pod_action(&pod, true).unwrap(),
        ReconcileAction::DeleteQueryPod
    );
}

#[test]
fn query_pod_succeeded_without_configmap_is_a_failure() {
    let pod = pod_in_phase("Succeeded");
    match dl::determine_query_pod_action(&pod, false).unwrap() {
        ReconcileAction::QueryFailure(f) => {
            assert!(!f.recreate);
            assert!(f.message.contains("without creating metadata ConfigMap"));
        }
        a => panic!("unexpected action {:?}", a),
    }
}

#[test]
fn query_pod_failure_is_recreated() {
    let pod = pod_in_phase("Failed");
    match dl::determine_query_pod_action(&pod, false).unwrap() {
        ReconcileAction::QueryFailure(f) => {
            assert_eq!(f.message, "query pod is in phase Failed");
            assert!(f.recreate);
        }
        a => panic!("unexpected action {:?}", a),
    }
}

#[test]
fn download_without_query_pod_creates_it() {
    let instance = download_with_phase("Pending");
    let r = dl::determine_action(&instance, false, &None, &Vec::new(), &Vec::new());
    assert_eq!(r.unwrap(), ReconcileAction::CreateQueryPod);
}

#[test]
fn download_status_builders_write_the_phases() {
    let now = || String::from("2023-01-01T00:00:00Z");
    assert_eq!(
        dl::pending(&None, now()).phase,
        Some(String::from("Pending"))
    );
    assert_eq!(
        dl::query_starting(&None, now()).phase,
        Some(String::from("QueryStarting"))
    );
    let qp = dl::query_progress(now(), String::from("t0"));
    assert_eq!(qp.phase, Some(String::from("Querying")));
    assert_eq!(qp.query_start_time, Some(String::from("t0")));
    let qf = dl::query_failure(&None, now(), String::from("boom"));
    assert_eq!(qf.phase, Some(String::from("ErrQueryFailed")));
    assert_eq!(qf.message, Some(String::from("boom")));
    assert_eq!(
        dl::succeeded(&None, now()).phase,
        Some(String::from("Succeeded"))
    );
}

#[test]
fn download_progress_message_carries_the_counts() {
    let st = dl::download_progress(&None, String::from("now"), 2, 3);
    assert_eq!(st.phase, Some(String::from("Downloading")));
    assert_eq!(
        st.message,
        Some(String::from("download in progress (2/3 succeeded)"))
    );
}

#[test]
fn job_status_builders_write_the_phases() {
    let now = || String::from("2023-01-01T00:00:00Z");
    assert_eq!(
        job::pending(&None, now()).phase,
        Some(String::from("Pending"))
    );
    assert_eq!(
        job::starting(&None, now()).phase,
        Some(String::from("Starting"))
    );
    let pr = job::progress(now(), String::from("t0"));
    assert_eq!(pr.phase, Some(String::from("Running")));
    assert_eq!(pr.start_time, Some(String::from("t0")));
    assert_eq!(
        job::success(&None, now()).phase,
        Some(String::from("Succeeded"))
    );
    let f = job::failure(
        &None,
        now(),
        ytdl_operator::job_reconcile::FailureOptions {
            message: String::from("bad"),
            recreate: true,
        },
    );
    assert_eq!(f.phase, Some(String::from("Failed")));
    assert_eq!(f.message, Some(String::from("bad")));
}

#[test]
fn download_invalid_phase_is_surfaced() {
    let instance = download_with_phase("Nonsense");
    match dl::get_download_phase(&instance) {
        Err(Error::InvalidPhase(m)) => assert_eq!(m, "Nonsense"),
        r => panic!("unexpected result {:?}", r),
    }
}

#[test]
fn download_model_step_matches_the_scenario() {
    // Querying -> Downloading(0/3) -> Downloading(2/3) -> Succeeded.
    let base = ytdl_operator::download_reconcile::DownloadState {
        deletion_requested: false,
        phase: Some(DownloadPhase::Querying),
        finalizer: true,
        query_pod: None,
        configmap_exists: true,
        jobs_missing: false,
        succeeded: 0,
        total: 3,
    };
    assert_eq!(
        dl::download_step(&base),
        ytdl_operator::download_reconcile::DownloadStep::SetDownloading
    );
    let later = ytdl_operator::download_reconcile::DownloadState {
        succeeded: 3,
        phase: Some(DownloadPhase::Downloading),
        ..base
    };
    assert_eq!(
        dl::download_step(&later),
        ytdl_operator::download_reconcile::DownloadStep::SetSucceeded
    );
    let done = ytdl_operator::download_reconcile::DownloadState {
        succeeded: 3,
        phase: Some(DownloadPhase::Succeeded),
        ..base
    };
    assert_eq!(
        dl::download_step(&done),
        ytdl_operator::download_reconcile::DownloadStep::Nothing
    );
}

#[test]
fn unschedulable_query_pod_view_is_not_recreated() {
    let s = ytdl_operator::download_reconcile::DownloadState {
        deletion_requested: false,
        phase: Some(DownloadPhase::QueryStarting),
        finalizer: true,
        query_pod: Some(PodView::Pending { unschedulable: true }),
        configmap_exists: false,
        jobs_missing: false,
        succeeded: 0,
        total: 0,
    };
    assert_eq!(
        dl::download_step(&s),
        ytdl_operator::download_reconcile::DownloadStep::SetQueryFailure { recreate: false }
    );
}
