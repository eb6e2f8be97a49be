use vstd::prelude::*;

use fast_image_resize::images::{Image as BackendImage, ImageRef};
use fast_image_resize::Resizer as BackendResizer;
use fast_image_resize::{FilterType, PixelType, ResizeAlg, ResizeOptions};

use crate::imaging::{bytes_per_pixel, Image, PixelFormat};
use crate::resize::{ResizeError, ResizeFilter, Resizer};

verus! {

#[verifier::external_type_specification]
#[verifier::external_body]
pub struct ExBackendResizer(BackendResizer);

#[verifier::external_type_specification]
#[verifier::external_body]
pub struct ExFilterType(FilterType);

/// Relies on fast_image_resize::Resizer::new, which makes a resizer with empty work buffers.
pub assume_specification[ BackendResizer::new ]() -> BackendResizer;

/// Relies on fast_image_resize::FilterType: the convolution kernel of the same name
/// (`Box` for nearest-neighbour).
#[verifier::external_body]
fn convolution_filter(filter: ResizeFilter) -> FilterType {
    match filter {
        ResizeFilter::Nearest => FilterType::Box,
        ResizeFilter::Bilinear => FilterType::Bilinear,
        ResizeFilter::Hamming => FilterType::Hamming,
        ResizeFilter::CatmullRom => FilterType::CatmullRom,
        ResizeFilter::Mitchell => FilterType::Mitchell,
        ResizeFilter::Gaussian => FilterType::Gaussian,
        ResizeFilter::Lanczos3 => FilterType::Lanczos3,
    }
}

/// Relies on fast_image_resize: `ImageRef::new` views `buffer` as the source image (it
/// refuses only a buffer shorter than width × height × pixel size; pixels of one-byte
/// components are never misaligned), `Image::new` allocates a zeroed destination of the
/// target size, `Resizer::resize` fills it by convolution with `filter` (it fails only on
/// differing pixel types or a bad crop box, neither of which can occur here), and
/// `Image::into_vec` hands back the destination buffer.
#[verifier::external_body]
fn resample(
    backend: &mut BackendResizer,
    source: (u32, u32, &[u8]),
    target: (u32, u32),
    format: PixelFormat,
    filter: FilterType,
) -> (r: Result<Vec<u8>, String>)
    requires
        source.2@.len() == source.0 * source.1 * bytes_per_pixel(format),
        target.0 * target.1 * bytes_per_pixel(format) <= usize::MAX,
    ensures
        r is Ok,
        r matches Ok(buffer) ==> buffer@.len() == target.0 * target.1 * bytes_per_pixel(format),
{
    let pixel_type = match format {
        PixelFormat::Rgba8 => PixelType::U8x4,
        PixelFormat::Rgb8 => PixelType::U8x3,
    };
    let view = match ImageRef::new(source.0, source.1, source.2, pixel_type) {
        Ok(view) => view,
        Err(e) => return Err(e.to_string()),
    };
    let mut destination = BackendImage::new(target.0, target.1, pixel_type);
    let options = ResizeOptions::new().resize_alg(ResizeAlg::Convolution(filter));
    match backend.resize(&view, &mut destination, &options) {
        Ok(()) => Ok(destination.into_vec()),
        Err(e) => Err(e.to_string()),
    }
}

/// A resizer backed by fast_image_resize's SIMD convolution kernels.
#[derive(Debug)]
pub struct FastResizer {
    inner: BackendResizer,
}

impl FastResizer {
    pub fn new() -> Self {
        FastResizer { inner: BackendResizer::new() }
    }
}

impl Default for FastResizer {
    fn default() -> Self {
        Self::new()
    }
}

impl Resizer for FastResizer {
    fn resize<T: Image>(
        &mut self,
        source_image: &T,
        target_size: (u32, u32),
        filter: ResizeFilter,
    ) -> (r: Result<T, ResizeError>)
        ensures
            r is Ok,
            r matches Ok(image) ==> image.spec_width() == target_size.0 && image.spec_height()
                == target_size.1 && image.spec_pixel_format() == source_image.spec_pixel_format(),
    {
        let width = source_image.width();
        let height = source_image.height();
        let bytes = source_image.as_bytes();
        let format = source_image.pixel_format();
        assert(target_size.0 * target_size.1 * bytes_per_pixel(format) <= usize::MAX) by (
        nonlinear_arith)
            requires
                target_size.0 * target_size.1 * 4 <= usize::MAX,
                bytes_per_pixel(format) <= 4,
        ;
        let buffer = match resample(
            &mut self.inner,
            (width, height, bytes),
            target_size,
            format,
            convolution_filter(filter),
        ) {
            Ok(buffer) => buffer,
            Err(message) => {
                return Err(ResizeError::ResizeError(message));
            },
        };
        Ok(T::from_parts(target_size.0, target_size.1, buffer, format))
    }
}

} // verus!
