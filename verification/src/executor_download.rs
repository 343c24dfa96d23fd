//! The download-mode executor's decisions: which command line fetches the
//! video, which format and filter the thumbnail is stored with, and how
//! the thumbnail is resized. The byte transfers themselves stay outside;
//! the image library is called through trusted wrappers.

use vstd::prelude::*;
use crate::content_storage::ThumbnailStorageSpec;
use crate::error::Error;
use crate::image_filter::ImageFilter;
use crate::image_format::ImageFormat;
use crate::image_format::spec_format_of;
use crate::text::lower_chars;
use crate::text::spec_lower;
use crate::text::str_eq;

verus! {

/// Path of the metadata file handed to the downloader, which can only
/// load it from a file.
pub const INFO_JSON_PATH: &'static str = "/info.json";

/// Builds the shell command that streams the video to standard output:
/// the downloader, loading the staged metadata, writing to `-`, with the
/// user's extra arguments appended.
pub fn build_cmd(command: &str, extra: &Option<String>) -> (r: String)
    ensures
        r@ == command@ + " --load-info-json /info.json -o -"@ + (match extra {
            Some(e) => " "@ + e@,
            None => Seq::<char>::empty(),
        }),
{
    let mut cmd = String::from_str(command);
    cmd.append(" --load-info-json /info.json -o -");
    match extra {
        Some(e) => {
            cmd.append(" ");
            cmd.append(e.as_str());
        },
        None => {},
    }
    cmd
}

/// The image format named by a `content-type` header value.
pub open spec fn spec_mime_format(m: Seq<char>) -> Option<ImageFormat> {
    if m == "image/jpeg"@ {
        Some(ImageFormat::Jpeg)
    } else if m == "image/png"@ {
        Some(ImageFormat::Png)
    } else if m == "image/gif"@ {
        Some(ImageFormat::Gif)
    } else if m == "image/webp"@ {
        Some(ImageFormat::Webp)
    } else if m == "image/tiff"@ {
        Some(ImageFormat::Tiff)
    } else if m == "image/bmp"@ {
        Some(ImageFormat::Bmp)
    } else if m == "image/x-icon"@ {
        Some(ImageFormat::Ico)
    } else {
        None
    }
}

/// Maps the thumbnail response's `content-type` header to the source
/// image format; any other content type is the user's problem to fix.
pub fn mimetype_to_format(mimetype: &str) -> (r: Result<ImageFormat, Error>)
    ensures
        match r {
            Ok(f) => spec_mime_format(mimetype@) == Some(f),
            Err(e) => spec_mime_format(mimetype@) is None && e matches Error::UserInputError(_),
        },
{
    if str_eq(mimetype, "image/jpeg") {
        Ok(ImageFormat::Jpeg)
    } else if str_eq(mimetype, "image/png") {
        Ok(ImageFormat::Png)
    } else if str_eq(mimetype, "image/gif") {
        Ok(ImageFormat::Gif)
    } else if str_eq(mimetype, "image/webp") {
        Ok(ImageFormat::Webp)
    } else if str_eq(mimetype, "image/tiff") {
        Ok(ImageFormat::Tiff)
    } else if str_eq(mimetype, "image/bmp") {
        Ok(ImageFormat::Bmp)
    } else if str_eq(mimetype, "image/x-icon") {
        Ok(ImageFormat::Ico)
    } else {
        Err(Error::UserInputError(String::from_str("unsupported thumbnail mimetype")))
    }
}

/// Parses a resize filter name, matching case-insensitively.
pub fn parse_filter_type(value: &str) -> (r: Option<ImageFilter>)
    ensures
        r == crate::image_filter::spec_filter_of(spec_lower(value@)),
{
    ImageFilter::from_str(value)
}

/// The last index at which `c` occurs in `s`.
pub open spec fn spec_last_index(s: Seq<char>, c: char) -> Option<int>
    decreases s.len(),
{
    if s.len() == 0 {
        None
    } else if s.last() == c {
        Some(s.len() - 1)
    } else {
        spec_last_index(s.drop_last(), c)
    }
}

/// Finds the last occurrence of `c` in `s`.
pub fn rfind_char(s: &Vec<char>, c: char) -> (r: Option<usize>)
    ensures
        match r {
            Some(i) => spec_last_index(s@, c) == Some(i as int) && i < s@.len(),
            None => spec_last_index(s@, c) is None,
        },
{
    let mut i: usize = s.len();
    assert(s@.take(s@.len() as int) =~= s@);
    while i > 0
        invariant
            i <= s@.len(),
            spec_last_index(s@.take(i as int), c) == spec_last_index(s@, c),
        decreases i,
    {
        proof {
            assert(s@.take(i as int).last() == s@[i - 1]);
            assert(s@.take(i as int).drop_last() =~= s@.take(i - 1));
        }
        if s[i - 1] == c {
            return Some(i - 1);
        }
        i -= 1;
    }
    assert(s@.take(0) =~= Seq::<char>::empty());
    None
}

/// The extension of a file name: what follows the last dot of the last
/// path segment, unless the dot leads the segment, as in a hidden file.
pub open spec fn spec_ext_of(name: Seq<char>) -> Option<Seq<char>> {
    let base = match spec_last_index(name, '/') {
        Some(i) => name.skip(i + 1),
        None => name,
    };
    match spec_last_index(base, '.') {
        Some(j) => if j == 0 {
            None
        } else {
            Some(base.skip(j + 1))
        },
        None => None,
    }
}

/// The image format inferred from a file name's extension, matched
/// case-insensitively.
pub open spec fn spec_format_from_filename(name: Seq<char>) -> Option<ImageFormat> {
    match spec_ext_of(name) {
        Some(e) => spec_format_of(spec_lower(e)),
        None => None,
    }
}

/// Infers the stored image format from the object key's extension.
pub fn get_format_from_filename(filename: &Vec<char>) -> (r: Option<ImageFormat>)
    ensures
        r == spec_format_from_filename(filename@),
{
    let n = filename.len();
    let base: Vec<char> = match rfind_char(filename, '/') {
        Some(i) => {
            let mut b: Vec<char> = Vec::new();
            assert(i < n);
            let mut k: usize = i + 1;
            while k < filename.len()
                invariant
                    i + 1 <= k <= filename@.len(),
                    b@ == filename@.subrange(i + 1, k as int),
                decreases filename@.len() - k,
            {
                b.push(filename[k]);
                assert(b@ =~= filename@.subrange(i + 1, k + 1));
                k += 1;
            }
            assert(b@ =~= filename@.skip(i + 1));
            b
        },
        None => filename.clone(),
    };
    match rfind_char(&base, '.') {
        Some(j) => {
            if j == 0 {
                None
            } else {
                let mut ext: Vec<char> = Vec::new();
                let mut k: usize = j + 1;
                while k < base.len()
                    invariant
                        j + 1 <= k <= base@.len(),
                        ext@ == base@.subrange(j + 1, k as int),
                    decreases base@.len() - k,
                {
                    ext.push(base[k]);
                    assert(ext@ =~= base@.subrange(j + 1, k + 1));
                    k += 1;
                }
                assert(ext@ =~= base@.skip(j + 1));
                ImageFormat::from_chars(&lower_chars(&ext))
            }
        },
        None => None,
    }
}

/// The processing options of one thumbnail download.
#[derive(Debug, Clone, PartialEq)]
pub struct ThumbnailOptions {
    /// Format the stored thumbnail is converted to.
    pub format: ImageFormat,
    /// Sampling filter used when resizing.
    pub filter: ImageFilter,
    /// Maximum width, in pixels.
    pub width: Option<u32>,
    /// Maximum height, in pixels.
    pub height: Option<u32>,
}

/// Resolves the thumbnail processing options: the filter from the spec or
/// the best default, and the format from the spec or inferred from the
/// object key. A format that is neither given nor inferable fails, since
/// a bucket of mixed thumbnail formats helps nobody.
pub fn get_thumbnail_options(thumbnail: &ThumbnailStorageSpec, key: &Vec<char>) -> (r: Result<
    ThumbnailOptions,
    Error,
>)
    ensures
        ({
            let format = match thumbnail.format {
                Some(f) => Some(f),
                None => spec_format_from_filename(key@),
            };
            match r {
                Ok(o) => {
                    &&& format == Some(o.format)
                    &&& o.filter == (match thumbnail.filter {
                        Some(f) => f,
                        None => ImageFilter::Lanczos3,
                    })
                    &&& o.width == thumbnail.width
                    &&& o.height == thumbnail.height
                },
                Err(e) => format is None && e matches Error::UserInputError(_),
            }
        }),
{
    let filter = match thumbnail.filter {
        Some(f) => f,
        None => ImageFilter::Lanczos3,
    };
    let format = match thumbnail.format {
        Some(f) => f,
        None => match get_format_from_filename(key) {
            Some(f) => f,
            None => {
                return Err(Error::UserInputError(String::from_str(
                    "thumbnail output format not specified and could not be inferred from output key",
                )));
            },
        },
    };
    Ok(ThumbnailOptions { format, filter, width: thumbnail.width, height: thumbnail.height })
}

/// Rounded division `a / b`, to the nearest integer with halves rounded
/// up.
pub open spec fn spec_round_div(a: int, b: int) -> int {
    (2 * a + b) / (2 * b)
}

/// The resize a thumbnail calls for: the explicit box when both
/// dimensions are set, the missing dimension scaled from the source's
/// aspect ratio when one is set, and no resize at all when neither is.
pub fn resize_dimensions(src_w: u32, src_h: u32, width: Option<u32>, height: Option<u32>) -> (r:
    Option<(u32, u32)>)
    requires
        src_w > 0,
        src_h > 0,
    ensures
        ({
            match (width, height) {
                (None, None) => r is None,
                (Some(w), Some(h)) => r == Some((w, h)),
                (Some(w), None) => r matches Some(d) && d.0 == w && d.1 == spec_clamp_u32(
                    spec_round_div(w as int * src_h as int, src_w as int),
                ),
                (None, Some(h)) => r matches Some(d) && d.1 == h && d.0 == spec_clamp_u32(
                    spec_round_div(h as int * src_w as int, src_h as int),
                ),
            }
        }),
{
    match (width, height) {
        (Some(w), Some(h)) => Some((w, h)),
        (Some(w), None) => {
            let h = round_div_clamped(w, src_h, src_w);
            Some((w, h))
        },
        (None, Some(h)) => {
            let w = round_div_clamped(h, src_w, src_h);
            Some((w, h))
        },
        (None, None) => None,
    }
}

/// Declares the image crate's decoded-image type, so thumbnail values
/// can pass through the verified resize logic; the library never looks
/// inside one.
#[verifier::external_type_specification]
#[verifier::external_body]
pub struct ExDynamicImage(image::DynamicImage);

/// The width of an image, in pixels: a pure function of the image value
/// that only the image crate can compute.
pub uninterp spec fn spec_image_width(img: image::DynamicImage) -> u32;

/// The height of an image, in pixels.
pub uninterp spec fn spec_image_height(img: image::DynamicImage) -> u32;

/// The image crate's resize of an image to fit within a bounding box
/// with a sampling filter: a function of its arguments alone, named
/// because stating a resampling algorithm is not the purpose of this
/// library.
pub uninterp spec fn spec_resized(
    img: image::DynamicImage,
    w: u32,
    h: u32,
    filter: ImageFilter,
) -> image::DynamicImage;

/// Relies on `image::DynamicImage::width`: the image's width in pixels.
#[verifier::external_body]
fn image_width(img: &image::DynamicImage) -> (r: u32)
    ensures
        r == spec_image_width(*img),
{
    img.width()
}

/// Relies on `image::DynamicImage::height`: the image's height in pixels.
#[verifier::external_body]
fn image_height(img: &image::DynamicImage) -> (r: u32)
    ensures
        r == spec_image_height(*img),
{
    img.height()
}

/// Relies on `image::DynamicImage::resize`: scales the image to the
/// largest size that fits within the given bounds, keeping the aspect
/// ratio, with the given filter; the result depends on the arguments
/// alone.
#[verifier::external_body]
fn resize_exec(img: &image::DynamicImage, w: u32, h: u32, filter: ImageFilter) -> (r:
    image::DynamicImage)
    ensures
        r == spec_resized(*img, w, h, filter),
{
    img.resize(w, h, match filter {
        ImageFilter::Nearest => image::imageops::FilterType::Nearest,
        ImageFilter::Triangle => image::imageops::FilterType::Triangle,
        ImageFilter::CatmullRom => image::imageops::FilterType::CatmullRom,
        ImageFilter::Gaussian => image::imageops::FilterType::Gaussian,
        ImageFilter::Lanczos3 => image::imageops::FilterType::Lanczos3,
    })
}

/// Resizes the thumbnail according to the requested dimensions: with
/// neither dimension set the image passes through untouched; with one
/// set, the other is scaled from the source's aspect ratio; the result
/// is exactly the image crate's resize of the input at the box
/// `resize_dimensions` fixes. An empty source, which has no aspect
/// ratio, also passes through untouched.
pub fn resize_image(
    img: image::DynamicImage,
    filter: ImageFilter,
    width: Option<u32>,
    height: Option<u32>,
) -> (r: image::DynamicImage)
    ensures
        ({
            let sw = spec_image_width(img);
            let sh = spec_image_height(img);
            match (width, height) {
                (None, None) => r == img,
                (Some(w), Some(h)) => if sw == 0 || sh == 0 {
                    r == img
                } else {
                    r == spec_resized(img, w, h, filter)
                },
                (Some(w), None) => if sw == 0 || sh == 0 {
                    r == img
                } else {
                    r == spec_resized(
                        img,
                        w,
                        spec_clamp_u32(spec_round_div(w as int * sh as int, sw as int)) as u32,
                        filter,
                    )
                },
                (None, Some(h)) => if sw == 0 || sh == 0 {
                    r == img
                } else {
                    r == spec_resized(
                        img,
                        spec_clamp_u32(spec_round_div(h as int * sw as int, sh as int)) as u32,
                        h,
                        filter,
                    )
                },
            }
        }),
{
    if width.is_none() && height.is_none() {
        return img;
    }
    let w = image_width(&img);
    let h = image_height(&img);
    if w == 0 || h == 0 {
        return img;
    }
    match resize_dimensions(w, h, width, height) {
        Some(d) => resize_exec(&img, d.0, d.1, filter),
        None => img,
    }
}

/// An integer clamped into `u32`.
pub open spec fn spec_clamp_u32(v: int) -> int {
    if v > u32::MAX as int {
        u32::MAX as int
    } else {
        v
    }
}

/// Computes `a * b / c` rounded to the nearest integer, clamped into
/// `u32`.
fn round_div_clamped(a: u32, b: u32, c: u32) -> (r: u32)
    requires
        c > 0,
    ensures
        r as int == spec_clamp_u32(spec_round_div(a as int * b as int, c as int)),
{
    let am = a as u128;
    let bm = b as u128;
    let cm = c as u128;
    proof {
        assert(am * bm <= 0xFFFF_FFFFu128 * 0xFFFF_FFFFu128) by (nonlinear_arith)
            requires
                am <= 0xFFFF_FFFFu128,
                bm <= 0xFFFF_FFFFu128,
        {}
    }
    let v: u128 = (2 * (am * bm) + cm) / (2 * cm);
    if v > u32::MAX as u128 {
        u32::MAX
    } else {
        v as u32
    }
}

} // verus!
