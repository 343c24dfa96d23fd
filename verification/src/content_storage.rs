//! Storage configuration for the downloaded content: the S3 output shape
//! shared by every consumer, and the per-content sections that embed it.

use vstd::prelude::*;
use crate::text::str_eq;

verus! {

/// S3-compatible storage configuration.
#[derive(Debug, Clone, PartialEq, Default)]
pub struct S3OutputSpec {
    /// Bucket name.
    pub bucket: String,
    /// Object key template; `%(id)s.%(ext)s` when unset.
    pub key: Option<String>,
    /// Name of the Secret holding the credentials under the fields
    /// `access_key_id`, `secret_access_key`, `security_token` and
    /// `session_token`; the ambient default chain is used when unset.
    pub secret: Option<String>,
    /// Region name; `us-east-1` when unset.
    pub region: Option<String>,
    /// Alternative endpoint for S3-compatible services.
    pub endpoint: Option<String>,
}

/// Configuration for audiovisual content storage.
#[derive(Debug, Clone, PartialEq, Default)]
pub struct VideoStorageSpec {
    /// Download format handed to the downloader's format selection.
    pub format: Option<String>,
    /// S3 output for the video file.
    pub s3: Option<S3OutputSpec>,
}

/// Configuration for metadata storage.
#[derive(Debug, Clone, PartialEq, Default)]
pub struct MetadataStorageSpec {
    /// S3 output for the metadata json.
    pub s3: Option<S3OutputSpec>,
}

/// Configuration for thumbnail storage.
#[derive(Debug, Clone, PartialEq, Default)]
pub struct ThumbnailStorageSpec {
    /// Output image format; inferred from the key's extension when unset.
    pub format: Option<crate::image_format::ImageFormat>,
    /// Maximum width of the stored thumbnail, in pixels.
    pub width: Option<u32>,
    /// Maximum height of the stored thumbnail, in pixels.
    pub height: Option<u32>,
    /// Sampling filter used when resizing.
    pub filter: Option<crate::image_filter::ImageFilter>,
    /// S3 output for the thumbnail file.
    pub s3: Option<S3OutputSpec>,
}

/// Output specification embedded in the download resources. At least one
/// section must be present for the resource to be meaningful.
#[derive(Debug, Clone, PartialEq, Default)]
pub struct OutputSpec {
    /// Video output section.
    pub video: Option<VideoStorageSpec>,
    /// Thumbnail output section.
    pub thumbnail: Option<ThumbnailStorageSpec>,
}

impl OutputSpec {
    /// At least one output section is present.
    pub open spec fn spec_is_valid(self) -> bool {
        self.video is Some || self.thumbnail is Some
    }

    /// Checks that at least one output section is present.
    pub fn is_valid(&self) -> (r: bool)
        ensures
            r == self.spec_is_valid(),
    {
        self.video.is_some() || self.thumbnail.is_some()
    }
}

impl S3OutputSpec {
    /// Copies the spec; unlike a derived clone, the copy is known to equal
    /// the original.
    pub fn duplicate(&self) -> (r: S3OutputSpec)
        ensures
            r == *self,
    {
        S3OutputSpec {
            bucket: self.bucket.clone(),
            key: crate::text::dup_opt_string(&self.key),
            secret: crate::text::dup_opt_string(&self.secret),
            region: crate::text::dup_opt_string(&self.region),
            endpoint: crate::text::dup_opt_string(&self.endpoint),
        }
    }
}

impl VideoStorageSpec {
    /// Copies the spec; the copy is known to equal the original.
    pub fn duplicate(&self) -> (r: VideoStorageSpec)
        ensures
            r == *self,
    {
        VideoStorageSpec {
            format: crate::text::dup_opt_string(&self.format),
            s3: match &self.s3 {
                Some(s) => Some(s.duplicate()),
                None => None,
            },
        }
    }
}

impl ThumbnailStorageSpec {
    /// Copies the spec; the copy is known to equal the original.
    pub fn duplicate(&self) -> (r: ThumbnailStorageSpec)
        ensures
            r == *self,
    {
        ThumbnailStorageSpec {
            format: self.format,
            width: self.width,
            height: self.height,
            filter: self.filter,
            s3: match &self.s3 {
                Some(s) => Some(s.duplicate()),
                None => None,
            },
        }
    }
}

impl OutputSpec {
    /// Copies the spec; the copy is known to equal the original.
    pub fn duplicate(&self) -> (r: OutputSpec)
        ensures
            r == *self,
    {
        OutputSpec {
            video: match &self.video {
                Some(v) => Some(v.duplicate()),
                None => None,
            },
            thumbnail: match &self.thumbnail {
                Some(t) => Some(t.duplicate()),
                None => None,
            },
        }
    }
}

/// Specification of the `ContentStorage` resource, grouping the storage
/// configuration of every kind of content in one place.
#[derive(Debug, Clone, PartialEq, Default)]
pub struct ContentStorageSpec {
    /// Video storage section.
    pub video: Option<VideoStorageSpec>,
    /// Metadata storage section.
    pub metadata: Option<MetadataStorageSpec>,
    /// Thumbnail storage section.
    pub thumbnail: Option<ThumbnailStorageSpec>,
}

/// Status object for the `ContentStorage` resource.
#[derive(Debug, Clone, PartialEq, Default)]
pub struct ContentStorageStatus {
    /// A short description of the resource's current state.
    pub phase: Option<String>,
    /// A human-readable message explaining the phase.
    pub message: Option<String>,
    /// Timestamp of the last status update.
    pub last_updated: Option<String>,
}

/// A short description of the `ContentStorage` resource's current state.
#[derive(Debug, Clone, Copy, PartialEq, Eq, Structural)]
pub enum ContentStoragePhase {
    /// The resource first appeared to the controller.
    Pending,
    /// No issues detected with the storage configuration.
    Healthy,
}

impl ContentStoragePhase {
    /// The phase name as persisted in `status.phase`.
    pub open spec fn spec_name(self) -> Seq<char> {
        match self {
            ContentStoragePhase::Pending => "Pending"@,
            ContentStoragePhase::Healthy => "Healthy"@,
        }
    }

    /// Renders the phase name.
    pub fn to_str(&self) -> (r: &'static str)
        ensures
            r@ == self.spec_name(),
    {
        match self {
            ContentStoragePhase::Pending => "Pending",
            ContentStoragePhase::Healthy => "Healthy",
        }
    }

    /// Parses a persisted phase name; `None` for anything else.
    pub fn from_str(s: &str) -> (r: Option<ContentStoragePhase>)
        ensures
            match r {
                Some(p) => s@ == p.spec_name(),
                None => s@ != "Pending"@ && s@ != "Healthy"@,
            },
    {
        if str_eq(s, "Pending") {
            Some(ContentStoragePhase::Pending)
        } else if str_eq(s, "Healthy") {
            Some(ContentStoragePhase::Healthy)
        } else {
            None
        }
    }
}

} // verus!
