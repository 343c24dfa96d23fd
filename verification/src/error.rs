//! Error kinds surfaced by the library. Every user-visible failure carries a
//! kind and a human-readable message; the unverified shell wraps errors of
//! the client libraries into these kinds before handing values back in.

use vstd::prelude::*;

verus! {

/// All errors the operator and the executor logic can surface.
#[derive(Debug, Clone, PartialEq, Eq)]
pub enum Error {
    /// Error reported by the Kubernetes API.
    KubeError(String),
    /// Service-level S3 error.
    S3Error(String),
    /// Bad or missing S3 credentials.
    S3CredentialsError(String),
    /// An S3 upload finished with a status other than 200.
    S3UploadError { status_code: u16 },
    /// Generic outbound HTTP error.
    HttpError(String),
    /// The thumbnail URL answered with a non-success status.
    ThumbnailDownloadError { status_code: u16 },
    /// Image decoding or encoding failed.
    ImageError(String),
    /// The downloader subprocess exited with a non-zero status.
    YoutubeDlError { exit_code: i32 },
    /// The VPN readiness probe failed or timed out.
    VPNError(String),
    /// The user's resource is invalid (missing fields, bad template).
    UserInputError(String),
    /// A persisted phase string is not a member of the phase enum.
    InvalidPhase(String),
    /// Anything that does not fit the kinds above.
    UnknownError(String),
}

} // verus!
