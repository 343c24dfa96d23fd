//! The sampling filters offered for thumbnail resizing. Filter names are
//! matched case-insensitively, as users write them into the resource.

use vstd::prelude::*;
use crate::text::chars_eq;
use crate::text::lower_chars;
use crate::text::spec_lower;
use crate::text::to_char_vec;

verus! {

/// Algorithm used when resizing thumbnails.
#[derive(Debug, Clone, Copy, PartialEq, Eq, Structural)]
pub enum ImageFilter {
    /// Nearest-neighbour sampling: crude but fastest.
    Nearest,
    /// Linear resampling.
    Triangle,
    /// Cubic resampling with smoother results.
    CatmullRom,
    /// Gaussian resampling.
    Gaussian,
    /// Lanczos resampling with window 3; usually the best quality.
    Lanczos3,
}

/// The filter named by an already-lowercased string.
pub open spec fn spec_filter_of(low: Seq<char>) -> Option<ImageFilter> {
    if low == "nearest"@ {
        Some(ImageFilter::Nearest)
    } else if low == "triangle"@ {
        Some(ImageFilter::Triangle)
    } else if low == "catmullrom"@ {
        Some(ImageFilter::CatmullRom)
    } else if low == "gaussian"@ {
        Some(ImageFilter::Gaussian)
    } else if low == "lanczos3"@ {
        Some(ImageFilter::Lanczos3)
    } else {
        None
    }
}

impl ImageFilter {
    /// The filter's display name.
    pub open spec fn spec_name(self) -> Seq<char> {
        match self {
            ImageFilter::Nearest => "Nearest"@,
            ImageFilter::Triangle => "Triangle"@,
            ImageFilter::CatmullRom => "CatmullRom"@,
            ImageFilter::Gaussian => "Gaussian"@,
            ImageFilter::Lanczos3 => "Lanczos3"@,
        }
    }

    /// Renders the filter's name.
    pub fn to_str(&self) -> (r: &'static str)
        ensures
            r@ == self.spec_name(),
    {
        match self {
            ImageFilter::Nearest => "Nearest",
            ImageFilter::Triangle => "Triangle",
            ImageFilter::CatmullRom => "CatmullRom",
            ImageFilter::Gaussian => "Gaussian",
            ImageFilter::Lanczos3 => "Lanczos3",
        }
    }

    /// Parses a filter name, matching case-insensitively.
    pub fn from_str(s: &str) -> (r: Option<ImageFilter>)
        ensures
            r == spec_filter_of(spec_lower(s@)),
    {
        let low = lower_chars(&to_char_vec(s));
        if chars_eq(&low, &to_char_vec("nearest")) {
            Some(ImageFilter::Nearest)
        } else if chars_eq(&low, &to_char_vec("triangle")) {
            Some(ImageFilter::Triangle)
        } else if chars_eq(&low, &to_char_vec("catmullrom")) {
            Some(ImageFilter::CatmullRom)
        } else if chars_eq(&low, &to_char_vec("gaussian")) {
            Some(ImageFilter::Gaussian)
        } else if chars_eq(&low, &to_char_vec("lanczos3")) {
            Some(ImageFilter::Lanczos3)
        } else {
            None
        }
    }
}

} // verus!
