//! The image file formats supported for thumbnail conversion. Extension
//! names are matched case-insensitively.

use vstd::prelude::*;
use crate::text::chars_eq;
use crate::text::lower_chars;
use crate::text::spec_lower;
use crate::text::to_char_vec;

verus! {

/// Image file format of a stored thumbnail.
#[derive(Debug, Clone, Copy, PartialEq, Eq, Structural)]
pub enum ImageFormat {
    /// JPEG.
    Jpeg,
    /// PNG.
    Png,
    /// WebP.
    Webp,
    /// BMP.
    Bmp,
    /// GIF.
    Gif,
    /// ICO.
    Ico,
    /// PGM (portable graymap).
    Pgm,
    /// TIFF.
    Tiff,
}

/// The format named by an already-lowercased extension.
pub open spec fn spec_format_of(low: Seq<char>) -> Option<ImageFormat> {
    if low == "jpg"@ || low == "jpeg"@ {
        Some(ImageFormat::Jpeg)
    } else if low == "png"@ {
        Some(ImageFormat::Png)
    } else if low == "webp"@ {
        Some(ImageFormat::Webp)
    } else if low == "bmp"@ {
        Some(ImageFormat::Bmp)
    } else if low == "gif"@ {
        Some(ImageFormat::Gif)
    } else if low == "ico"@ {
        Some(ImageFormat::Ico)
    } else if low == "pgm"@ {
        Some(ImageFormat::Pgm)
    } else if low == "tif"@ || low == "tiff"@ {
        Some(ImageFormat::Tiff)
    } else {
        None
    }
}

impl ImageFormat {
    /// The format's canonical file extension.
    pub open spec fn spec_name(self) -> Seq<char> {
        match self {
            ImageFormat::Jpeg => "jpg"@,
            ImageFormat::Png => "png"@,
            ImageFormat::Webp => "webp"@,
            ImageFormat::Bmp => "bmp"@,
            ImageFormat::Gif => "gif"@,
            ImageFormat::Ico => "ico"@,
            ImageFormat::Pgm => "pgm"@,
            ImageFormat::Tiff => "tiff"@,
        }
    }

    /// Renders the format's canonical extension.
    pub fn to_str(&self) -> (r: &'static str)
        ensures
            r@ == self.spec_name(),
    {
        match self {
            ImageFormat::Jpeg => "jpg",
            ImageFormat::Png => "png",
            ImageFormat::Webp => "webp",
            ImageFormat::Bmp => "bmp",
            ImageFormat::Gif => "gif",
            ImageFormat::Ico => "ico",
            ImageFormat::Pgm => "pgm",
            ImageFormat::Tiff => "tiff",
        }
    }

    /// Parses a file extension, matching case-insensitively.
    pub fn from_str(s: &str) -> (r: Option<ImageFormat>)
        ensures
            r == spec_format_of(spec_lower(s@)),
    {
        let low = lower_chars(&to_char_vec(s));
        ImageFormat::from_chars(&low)
    }

    /// Parses an already-lowercased extension given as characters.
    pub fn from_chars(low: &Vec<char>) -> (r: Option<ImageFormat>)
        ensures
            r == spec_format_of(low@),
    {
        if chars_eq(low, &to_char_vec("jpg")) || chars_eq(low, &to_char_vec("jpeg")) {
            Some(ImageFormat::Jpeg)
        } else if chars_eq(low, &to_char_vec("png")) {
            Some(ImageFormat::Png)
        } else if chars_eq(low, &to_char_vec("webp")) {
            Some(ImageFormat::Webp)
        } else if chars_eq(low, &to_char_vec("bmp")) {
            Some(ImageFormat::Bmp)
        } else if chars_eq(low, &to_char_vec("gif")) {
            Some(ImageFormat::Gif)
        } else if chars_eq(low, &to_char_vec("ico")) {
            Some(ImageFormat::Ico)
        } else if chars_eq(low, &to_char_vec("pgm")) {
            Some(ImageFormat::Pgm)
        } else if chars_eq(low, &to_char_vec("tif")) || chars_eq(low, &to_char_vec("tiff")) {
            Some(ImageFormat::Tiff)
        } else {
            None
        }
    }
}

} // verus!
