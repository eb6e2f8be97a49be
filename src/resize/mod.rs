use vstd::prelude::*;
use vstd::string::*;

use crate::imaging::Image;

pub mod fast_resizer;

verus! {

/// Why a resize did not produce an image.
#[derive(Debug)]
pub enum ResizeError {
    ResizeBufferError(String),
    ResizeError(String),
}

/// What std's Debug format writes for a string: its characters in double quotes, with
/// quotes, backslashes and control characters escaped.
pub uninterp spec fn debug_quoted(s: Seq<char>) -> Seq<char>;

/// Relies on std's Debug format of `str` for the quoted and escaped text.
#[verifier::external_body]
fn quoted(s: &str) -> (r: String)
    ensures
        r@ == debug_quoted(s@),
{
    format!("{s:?}")
}

impl ResizeError {
    /// The error as written in Rust's debug notation: the variant's name, then its
    /// message quoted, in parentheses.
    pub open spec fn spec_debug_text(&self) -> Seq<char> {
        match self {
            ResizeError::ResizeBufferError(m) => "ResizeBufferError("@ + debug_quoted(m@) + ")"@,
            ResizeError::ResizeError(m) => "ResizeError("@ + debug_quoted(m@) + ")"@,
        }
    }

    pub fn debug_text(&self) -> (r: String)
        ensures
            r@ == self.spec_debug_text(),
    {
        let (name, message) = match self {
            ResizeError::ResizeBufferError(m) => ("ResizeBufferError(", m),
            ResizeError::ResizeError(m) => ("ResizeError(", m),
        };
        let mut text = String::from_str(name);
        let inner = quoted(message.as_str());
        text.append(inner.as_str());
        text.append(")");
        text
    }
}

/// The resampling kernel used when resizing.
#[derive(Debug, Clone, Copy, PartialEq, Eq, Structural)]
#[non_exhaustive]
pub enum ResizeFilter {
    Nearest,
    Bilinear,
    Hamming,
    CatmullRom,
    Mitchell,
    Gaussian,
    Lanczos3,
}

impl Default for ResizeFilter {
    fn default() -> (r: Self)
        ensures
            r == ResizeFilter::Lanczos3,
    {
        ResizeFilter::Lanczos3
    }
}

/// Something that resamples an image to a new size.
pub trait Resizer {
    /// Resamples `source_image` to `target_size` (width, height) with `filter`,
    /// into a freshly allocated image of the same pixel format.
    fn resize<T: Image>(
        &mut self,
        source_image: &T,
        target_size: (u32, u32),
        filter: ResizeFilter,
    ) -> (r: Result<T, ResizeError>)
        requires
            target_size.0 * target_size.1 * 4 <= usize::MAX,
        ensures
            r matches Ok(image) ==> {
                &&& image.spec_width() == target_size.0
                &&& image.spec_height() == target_size.1
                &&& image.spec_pixel_format() == source_image.spec_pixel_format()
            },
    ;
}


/// The side that keeps the ratio `numerator` : `denominator` when the other side is `value`:
/// `value × numerator / denominator` rounded down and capped at `u32::MAX`; 0 when the
/// ratio has no denominator.
pub open spec fn spec_aspect_scaled(value: u32, numerator: u32, denominator: u32) -> u32 {
    if denominator == 0 {
        0
    } else if value as int * numerator as int / denominator as int > u32::MAX {
        u32::MAX
    } else {
        (value as int * numerator as int / denominator as int) as u32
    }
}

/// The side that keeps the ratio `numerator` : `denominator` when the other side is `value`;
/// with the aspect ratio locked, a new target width `w` for a `sw` × `sh` source gives the
/// height `aspect_scaled(w, sh, sw)`, and a new height `h` the width `aspect_scaled(h, sw, sh)`.
pub fn aspect_scaled(value: u32, numerator: u32, denominator: u32) -> (r: u32)
    ensures
        r == spec_aspect_scaled(value, numerator, denominator),
{
    if denominator == 0 {
        return 0;
    }
    assert(value as int * numerator as int <= u32::MAX as int * u32::MAX as int) by (
    nonlinear_arith)
        requires
            value <= u32::MAX,
            numerator <= u32::MAX,
    ;
    let scaled = value as u64 * numerator as u64 / denominator as u64;
    if scaled > u32::MAX as u64 {
        u32::MAX
    } else {
        scaled as u32
    }
}

} // verus!
