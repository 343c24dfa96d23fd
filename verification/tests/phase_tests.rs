//! Tests of the remaining phase vocabularies: every phase renders to its
//! wire name and parses back; anything else is rejected.

use ytdl_operator::common;
use ytdl_operator::content_storage::ContentStoragePhase;
use ytdl_operator::download::DownloadPhase;
use ytdl_operator::download_child_process::DownloadChildProcessPhase;
use ytdl_operator::executor::ExecutorPhase;
use ytdl_operator::image_filter::ImageFilter;
use ytdl_operator::metadata_storage::MetadataStoragePhase;
use ytdl_operator::metadata_target::MetadataTargetPhase;
use ytdl_operator::target;

#[test]
fn download_phases_round_trip() {
    for p in [
        DownloadPhase::Pending,
        DownloadPhase::QueryStarting,
        DownloadPhase::Querying,
        DownloadPhase::Downloading,
        DownloadPhase::Succeeded,
        DownloadPhase::ErrQueryFailed,
    ] {
        assert_eq!(DownloadPhase::from_str(p.to_str()), Some(p));
    }
    assert_eq!(DownloadPhase::from_str(""), None);
}

#[test]
fn executor_phases_round_trip() {
    for p in [
        ExecutorPhase::Pending,
        ExecutorPhase::Starting,
        ExecutorPhase::Running,
        ExecutorPhase::Succeeded,
        ExecutorPhase::Failed,
    ] {
        assert_eq!(ExecutorPhase::from_str(p.to_str()), Some(p));
    }
    assert_eq!(ExecutorPhase::from_str("Downloading"), None);
}

#[test]
fn child_process_phases_round_trip() {
    for p in [
        DownloadChildProcessPhase::Pending,
        DownloadChildProcessPhase::Waiting,
        DownloadChildProcessPhase::Starting,
        DownloadChildProcessPhase::Running,
        DownloadChildProcessPhase::Succeeded,
        DownloadChildProcessPhase::Failed,
    ] {
        assert_eq!(DownloadChildProcessPhase::from_str(p.to_str()), Some(p));
    }
}

#[test]
fn target_phases_round_trip() {
    for p in [
        common::TargetPhase::Pending,
        common::TargetPhase::Verifying,
        common::TargetPhase::Ready,
        common::TargetPhase::ErrVerifyFailed,
    ] {
        assert_eq!(common::TargetPhase::from_str(p.to_str()), Some(p));
    }
    for p in [
        target::TargetPhase::Pending,
        target::TargetPhase::Verifying,
        target::TargetPhase::Ready,
        target::TargetPhase::ErrVerifyFailed,
    ] {
        assert_eq!(target::TargetPhase::from_str(p.to_str()), Some(p));
    }
}

#[test]
fn storage_phases_round_trip() {
    for p in [ContentStoragePhase::Pending, ContentStoragePhase::Healthy] {
        assert_eq!(ContentStoragePhase::from_str(p.to_str()), Some(p));
    }
    for p in [
        MetadataStoragePhase::Pending,
        MetadataStoragePhase::Verifying,
        MetadataStoragePhase::Ready,
        MetadataStoragePhase::ErrVerifyFailed,
    ] {
        assert_eq!(MetadataStoragePhase::from_str(p.to_str()), Some(p));
    }
    for p in [
        MetadataTargetPhase::Pending,
        MetadataTargetPhase::Verifying,
        MetadataTargetPhase::Ready,
        MetadataTargetPhase::ErrVerifyFailed,
    ] {
        assert_eq!(MetadataTargetPhase::from_str(p.to_str()), Some(p));
    }
}

#[test]
fn filter_names_render_capitalized() {
    assert_eq!(ImageFilter::Lanczos3.to_str(), "Lanczos3");
    assert_eq!(ImageFilter::from_str(ImageFilter::Gaussian.to_str()), Some(ImageFilter::Gaussian));
}
