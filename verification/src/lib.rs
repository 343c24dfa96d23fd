//! Verified core of a Kubernetes operator that downloads videos (and their
//! thumbnails and metadata) from external video services onto S3-compatible
//! object storage.
//!
//! The library holds the logic of the operator: the data model of the custom
//! resources, the resolution of output templates into object keys, the pod
//! templates with their VPN sidecar protocol, and the reconciliation state
//! machines for both the `Download` resource and its child job resources.
//! All I/O (Kubernetes API calls, S3 transfers, subprocesses) is performed by
//! a thin unverified shell that feeds plain values into these functions and
//! carries their decisions out.

pub mod common;
pub mod content_storage;
pub mod crd;
pub mod download;
pub mod download_child_process;
pub mod download_reconcile;
pub mod error;
pub mod executor;
pub mod executor_download;
pub mod executor_query;
pub mod image_filter;
pub mod image_format;
pub mod job_reconcile;
pub mod k8s_model;
pub mod metadata_storage;
pub mod output;
pub mod pod_model;
pub mod vpn;
pub mod metadata_target;
pub mod target;
pub mod targets;
pub mod metadata;
pub mod template;
pub mod text;

use vstd::prelude::*;

verus! {

/// Default S3 region used when an output spec names none.
pub const DEFAULT_REGION: &'static str = "us-east-1";

/// Default S3 object key template.
pub const DEFAULT_TEMPLATE: &'static str = "%(id)s.%(ext)s";

/// Key under which the query publishes the joined metadata lines
/// in the ConfigMap.
pub const INFO_JSONL_KEY: &'static str = "info.jsonl";

/// Finalizer applied to resources that own children.
pub const FINALIZER: &'static str = "ytdl.beebs.dev/finalizer";

/// Default image for the executor pods.
pub const DEFAULT_EXECUTOR_IMAGE: &'static str = "thavlik/ytdl-executor:latest";

} // verus!
