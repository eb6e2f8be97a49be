use vstd::arithmetic::div_mod::{lemma_div_by_multiple, lemma_div_is_ordered};
use vstd::prelude::*;
use vstd::string::*;

use image::codecs::ico::{IcoEncoder, IcoFrame};
use image::{ExtendedColorType, ImageError};

use crate::imaging::{
    fits, Image, ImageFormat, ImageLoadError, ImageReader, ImageSaveError,
    ImageWriter, PixelFormat,
};
use crate::resize::fast_resizer::FastResizer;
use crate::resize::{ResizeError, ResizeFilter, Resizer};

verus! {

#[verifier::external_type_specification]
#[verifier::external_body]
pub struct ExImageError(ImageError);

#[verifier::external_type_specification]
#[verifier::external_body]
pub struct ExIcoFrame<'a>(IcoFrame<'a>);

#[verifier::external_type_specification]
#[verifier::external_body]
pub struct ExIoError(std::io::Error);

/// Width, height and RGBA8 pixels that the codec decodes from the bytes of a file.
pub uninterp spec fn rgba8_decoding(data: Seq<u8>) -> (u32, u32, Seq<u8>);

/// Whether the codec decodes the bytes of a file into an image.
pub uninterp spec fn decodes_rgba8(data: Seq<u8>) -> bool;

/// Whether the codec can write the given pixels as a file of `format`.
pub uninterp spec fn encodes(
    data: Seq<u8>,
    width: u32,
    height: u32,
    pixel_format: PixelFormat,
    format: ImageFormat,
) -> bool;

/// The bytes of a file of `format` that the codec writes for the given pixels.
pub uninterp spec fn encoding(
    data: Seq<u8>,
    width: u32,
    height: u32,
    pixel_format: PixelFormat,
    format: ImageFormat,
) -> Seq<u8>;

/// The kind of failure the codec reports when the bytes of a file do not decode.
pub uninterp spec fn decoding_failure(data: Seq<u8>) -> CodecErrorKind;

/// Relies on image::load_from_memory, which guesses the format from the bytes and decodes
/// them, and on DynamicImage::into_rgba8, which converts the pixels to RGBA8; the result,
/// and the kind of a failure, are functions of the bytes alone. A failure is handed back
/// as its kind and the message of the error inside it.
#[verifier::external_body]
fn decode_rgba8(data: &[u8]) -> (r: Result<(u32, u32, Vec<u8>), (CodecErrorKind, String)>)
    ensures
        r is Ok <==> decodes_rgba8(data@),
        r matches Ok(parts) ==> (parts.0, parts.1, parts.2@) == rgba8_decoding(data@),
        r matches Err(failure) ==> failure.0 == decoding_failure(data@),
{
    match image::load_from_memory(data) {
        Ok(decoded) => {
            let rgba = decoded.into_rgba8();
            Ok((rgba.width(), rgba.height(), rgba.into_raw()))
        },
        Err(ImageError::Decoding(e)) => Err((CodecErrorKind::Decoding, e.to_string())),
        Err(ImageError::Encoding(e)) => Err((CodecErrorKind::Encoding, e.to_string())),
        Err(ImageError::Parameter(e)) => Err((CodecErrorKind::Parameter, e.to_string())),
        Err(ImageError::Limits(e)) => Err((CodecErrorKind::Limits, e.to_string())),
        Err(ImageError::Unsupported(e)) => Err((CodecErrorKind::Unsupported, e.to_string())),
        Err(ImageError::IoError(e)) => Err((CodecErrorKind::Io, e.to_string())),
    }
}

/// Relies on image::write_buffer_with_format, which encodes the pixels in the given format
/// into an in-memory writer; it panics when the buffer does not fit the size and layout.
#[verifier::external_body]
fn encode_buffer(
    data: &[u8],
    width: u32,
    height: u32,
    pixel_format: PixelFormat,
    format: ImageFormat,
) -> (r: Result<Vec<u8>, ImageError>)
    requires
        fits(width, height, data@, pixel_format),
    ensures
        r is Ok <==> encodes(data@, width, height, pixel_format, format),
        r matches Ok(bytes) ==> bytes@ == encoding(data@, width, height, pixel_format, format),
{
    let color = match pixel_format {
        PixelFormat::Rgba8 => ExtendedColorType::Rgba8,
        PixelFormat::Rgb8 => ExtendedColorType::Rgb8,
    };
    let codec_format = match format {
        ImageFormat::Png => image::ImageFormat::Png,
        ImageFormat::Ico => image::ImageFormat::Ico,
        ImageFormat::Jpeg => image::ImageFormat::Jpeg,
        ImageFormat::Webp => image::ImageFormat::WebP,
        ImageFormat::Bmp => image::ImageFormat::Bmp,
    };
    let mut out = std::io::Cursor::new(Vec::new());
    image::write_buffer_with_format(&mut out, data, width, height, color, codec_format)?;
    Ok(out.into_inner())
}

/// One frame of an icon: its PNG-encoded pixels and its size.
struct IconFrame {
    width: u32,
    height: u32,
    frame: IcoFrame<'static>,
}

/// The eight bytes every PNG stream starts with.
pub open spec fn png_signature() -> Seq<u8> {
    seq![137u8, 80, 78, 71, 13, 10, 26, 10]
}

/// The little-endian 32-bit word at `at` in `bytes`.
pub open spec fn le_u32(bytes: Seq<u8>, at: int) -> int {
    bytes[at] + 256 * bytes[at + 1] + 65536 * bytes[at + 2] + 16777216 * bytes[at + 3]
}

/// Whether directory entry `i` of the icon in `bytes` describes a frame of `size`
/// (a side of 256 is stored as 0) whose data is a PNG stream.
pub open spec fn icon_entry(bytes: Seq<u8>, i: int, size: (u32, u32)) -> bool {
    let entry = 6 + 16 * i;
    let offset = le_u32(bytes, entry + 12);
    &&& entry + 16 <= bytes.len()
    &&& bytes[entry] == (size.0 % 256) as u8
    &&& bytes[entry + 1] == (size.1 % 256) as u8
    &&& offset + 8 <= bytes.len()
    &&& bytes.subrange(offset, offset + 8) == png_signature()
}

/// Relies on image::codecs::ico::IcoFrame::as_png, which encodes the pixels as a PNG stream
/// (starting with the PNG signature) for an icon frame of the given size, in memory; it
/// refuses a width or height outside 1 to 256, succeeds otherwise for 8-bit RGB and RGBA
/// pixels, and panics when the buffer does not fit the size and layout.
#[verifier::external_body]
fn png_frame(data: &[u8], width: u32, height: u32, pixel_format: PixelFormat) -> (r: Result<
    IconFrame,
    ImageError,
>)
    requires
        fits(width, height, data@, pixel_format),
    ensures
        r is Ok <==> (1 <= width <= 256 && 1 <= height <= 256),
        r matches Ok(frame) ==> frame.width == width && frame.height == height,
{
    let color = match pixel_format {
        PixelFormat::Rgba8 => ExtendedColorType::Rgba8,
        PixelFormat::Rgb8 => ExtendedColorType::Rgb8,
    };
    let frame = IcoFrame::as_png(data, width, height, color)?;
    Ok(IconFrame { width, height, frame })
}

/// Relies on image::codecs::ico::IcoEncoder::encode_images, writing into memory: writes to
/// a `Vec` never fail, so a non-empty list of frames is always encoded (a few frames keep
/// the 32-bit data offsets from overflowing). The output starts with the icon header (two
/// zero bytes, the type 1 and the number of frames, as little-endian 16-bit words), then
/// one 16-byte directory entry per frame, in order, holding the frame's width and height
/// as bytes and, at bytes 12 to 15, the offset of its data, which `IcoFrame::as_png` made
/// a PNG stream.
#[verifier::external_body]
fn icon_container(frames: Vec<IconFrame>) -> (r: Result<Vec<u8>, ImageError>)
    requires
        1 <= frames@.len() <= 9,
    ensures
        r is Ok,
        r matches Ok(bytes) ==> icon_header(bytes@, frames@.len()),
        r matches Ok(bytes) ==> forall|i: int|
            0 <= i < frames@.len() ==> icon_entry(
                bytes@,
                i,
                (#[trigger] frames@[i].width, frames@[i].height),
            ),
{
    let frames: Vec<IcoFrame<'static>> = frames.into_iter().map(|f| f.frame).collect();
    let mut out: Vec<u8> = Vec::new();
    IcoEncoder::new(&mut out).encode_images(&frames)?;
    Ok(out)
}

/// The kinds of failure the codec reports.
#[derive(Debug, Clone, Copy, PartialEq, Eq, Structural)]
pub enum CodecErrorKind {
    Decoding,
    Encoding,
    Parameter,
    Limits,
    Unsupported,
    Io,
}

/// Relies on image::ImageError: tells its variants apart and takes the message of the error
/// each one carries.
#[verifier::external_body]
fn codec_error_parts(error: ImageError) -> (CodecErrorKind, String) {
    match error {
        ImageError::Decoding(e) => (CodecErrorKind::Decoding, e.to_string()),
        ImageError::Encoding(e) => (CodecErrorKind::Encoding, e.to_string()),
        ImageError::Parameter(e) => (CodecErrorKind::Parameter, e.to_string()),
        ImageError::Limits(e) => (CodecErrorKind::Limits, e.to_string()),
        ImageError::Unsupported(e) => (CodecErrorKind::Unsupported, e.to_string()),
        ImageError::IoError(e) => (CodecErrorKind::Io, e.to_string()),
    }
}

/// The load error that a codec failure of `kind` with `message` becomes.
pub open spec fn is_load_error_for(e: ImageLoadError, kind: CodecErrorKind, message: Seq<char>) -> bool {
    match kind {
        CodecErrorKind::Decoding => e matches ImageLoadError::DecodingError(m) && m@ == message,
        CodecErrorKind::Parameter => e matches ImageLoadError::ParameterError(m) && m@ == message,
        CodecErrorKind::Unsupported => e matches ImageLoadError::UnsupportedError(m) && m@
            == message,
        CodecErrorKind::Io => e matches ImageLoadError::IOError(m) && m@ == message,
        CodecErrorKind::Encoding | CodecErrorKind::Limits => e matches ImageLoadError::OtherError(
            m,
        ) && m@ == message,
    }
}

/// The save error that a codec failure of `kind` with `message` becomes.
pub open spec fn is_save_error_for(e: ImageSaveError, kind: CodecErrorKind, message: Seq<char>) -> bool {
    match kind {
        CodecErrorKind::Encoding => e matches ImageSaveError::EncodingError(m) && m@ == message,
        CodecErrorKind::Parameter => e matches ImageSaveError::ParameterError(m) && m@ == message,
        CodecErrorKind::Unsupported => e matches ImageSaveError::UnsupportedError(m) && m@
            == message,
        CodecErrorKind::Io => e matches ImageSaveError::IOError(m) && m@ == message,
        CodecErrorKind::Decoding | CodecErrorKind::Limits => e matches ImageSaveError::OtherError(
            m,
        ) && m@ == message,
    }
}

impl ImageLoadError {
    /// The message the error carries.
    pub open spec fn spec_message(self) -> Seq<char> {
        match self {
            ImageLoadError::IOError(m) => m@,
            ImageLoadError::DecodingError(m) => m@,
            ImageLoadError::ParameterError(m) => m@,
            ImageLoadError::UnsupportedError(m) => m@,
            ImageLoadError::OtherError(m) => m@,
        }
    }

    /// The load error for a failure to read the file: `IOError`, carrying its message.
    pub fn from_io_error(error: std::io::Error) -> (r: ImageLoadError)
        ensures
            r matches ImageLoadError::IOError(m) && to_string_from_display_ensures::<
                std::io::Error,
            >(&error, m),
    {
        ImageLoadError::IOError(error.to_string())
    }

    /// The load error for a codec failure of `kind` carrying `message`.
    pub fn from_codec(kind: CodecErrorKind, message: String) -> (r: ImageLoadError)
        ensures
            is_load_error_for(r, kind, message@),
    {
        match kind {
            CodecErrorKind::Decoding => ImageLoadError::DecodingError(message),
            CodecErrorKind::Parameter => ImageLoadError::ParameterError(message),
            CodecErrorKind::Unsupported => ImageLoadError::UnsupportedError(message),
            CodecErrorKind::Io => ImageLoadError::IOError(message),
            CodecErrorKind::Encoding | CodecErrorKind::Limits => ImageLoadError::OtherError(
                message,
            ),
        }
    }
}

impl ImageSaveError {
    /// The save error for a failure to write the file: `IOError`, carrying its message.
    pub fn from_io_error(error: std::io::Error) -> (r: ImageSaveError)
        ensures
            r matches ImageSaveError::IOError(m) && to_string_from_display_ensures::<
                std::io::Error,
            >(&error, m),
    {
        ImageSaveError::IOError(error.to_string())
    }

    /// The save error for a failed resize: `OtherError`, carrying the resize error's text.
    pub fn from_resize_error(error: &ResizeError) -> (r: ImageSaveError)
        ensures
            r matches ImageSaveError::OtherError(m) && m@ == error.spec_debug_text(),
    {
        ImageSaveError::OtherError(error.debug_text())
    }

    /// The save error for a codec failure of `kind` carrying `message`.
    pub fn from_codec(kind: CodecErrorKind, message: String) -> (r: ImageSaveError)
        ensures
            is_save_error_for(r, kind, message@),
    {
        match kind {
            CodecErrorKind::Encoding => ImageSaveError::EncodingError(message),
            CodecErrorKind::Parameter => ImageSaveError::ParameterError(message),
            CodecErrorKind::Unsupported => ImageSaveError::UnsupportedError(message),
            CodecErrorKind::Io => ImageSaveError::IOError(message),
            CodecErrorKind::Decoding | CodecErrorKind::Limits => ImageSaveError::OtherError(
                message,
            ),
        }
    }
}

fn save_error(error: ImageError) -> ImageSaveError {
    let (kind, message) = codec_error_parts(error);
    ImageSaveError::from_codec(kind, message)
}


/// The sizes of the dominant side of the frames an icon is written with, smallest first.
pub open spec fn ico_sizes() -> Seq<u32> {
    seq![16u32, 24, 32, 48, 64, 72, 96, 128, 256]
}

/// The size of the icon frame whose dominant side is `size`, for a `width` × `height` source:
/// the other side keeps the aspect ratio, rounded down.
pub open spec fn spec_ico_frame_size(size: u32, width: u32, height: u32) -> (u32, u32) {
    if width > height {
        (size, (size as int * height as int / width as int) as u32)
    } else if height > width {
        ((size as int * width as int / height as int) as u32, size)
    } else {
        (size, size)
    }
}

/// The filter an icon frame of size `target` is resampled with from a `width` × `height`
/// source: Mitchell when the frame has more pixels than the source, Lanczos3 otherwise.
pub open spec fn spec_ico_frame_filter(target: (u32, u32), width: u32, height: u32) -> ResizeFilter {
    if target.0 * target.1 > width * height {
        ResizeFilter::Mitchell
    } else {
        ResizeFilter::Lanczos3
    }
}

proof fn lemma_scaled_side(size: u32, short: u32, long: u32)
    requires
        short < long,
    ensures
        size as int * short as int / long as int <= size,
{
    assert(size as int * short as int <= size as int * long as int) by (nonlinear_arith)
        requires
            short < long,
    ;
    lemma_div_is_ordered(size as int * short as int, size as int * long as int, long as int);
    lemma_div_by_multiple(size as int, long as int);
}

proof fn lemma_u32_product(a: u32, b: u32)
    ensures
        a as int * b as int <= u64::MAX,
{
    assert(a as int * b as int <= u32::MAX as int * u32::MAX as int) by (nonlinear_arith)
        requires
            a <= u32::MAX,
            b <= u32::MAX,
    ;
}

/// An icon frame is never larger than its planned size on either side; the side of the
/// longer source edge, or both sides of a square source, are exactly that size.
pub proof fn lemma_ico_frame_size_bounded(size: u32, width: u32, height: u32)
    ensures
        spec_ico_frame_size(size, width, height).0 <= size,
        spec_ico_frame_size(size, width, height).1 <= size,
        width >= height ==> spec_ico_frame_size(size, width, height).0 == size,
        height >= width ==> spec_ico_frame_size(size, width, height).1 == size,
{
    if width > height {
        lemma_scaled_side(size, height, width);
    } else if height > width {
        lemma_scaled_side(size, width, height);
    }
}

/// The size of the icon frame whose dominant side is `size`, for a `width` × `height` source.
pub fn ico_frame_size(size: u32, width: u32, height: u32) -> (r: (u32, u32))
    ensures
        r == spec_ico_frame_size(size, width, height),
{
    proof {
        lemma_u32_product(size, height);
        lemma_u32_product(size, width);
    }
    if width > height {
        proof {
            lemma_scaled_side(size, height, width);
        }
        (size, (size as u64 * height as u64 / width as u64) as u32)
    } else if height > width {
        proof {
            lemma_scaled_side(size, width, height);
        }
        ((size as u64 * width as u64 / height as u64) as u32, size)
    } else {
        (size, size)
    }
}

/// The filter an icon frame of size `target` is resampled with from a `width` × `height` source.
pub fn ico_frame_filter(target: (u32, u32), width: u32, height: u32) -> (r: ResizeFilter)
    ensures
        r == spec_ico_frame_filter(target, width, height),
{
    proof {
        lemma_u32_product(target.0, target.1);
        lemma_u32_product(width, height);
    }
    if target.0 as u64 * target.1 as u64 > width as u64 * height as u64 {
        ResizeFilter::Mitchell
    } else {
        ResizeFilter::Lanczos3
    }
}

/// The frames an icon of a `width` × `height` image is made of: for each size of
/// `ico_sizes`, in order, the frame's size and the filter it is resampled with.
pub fn ico_frame_plan(width: u32, height: u32) -> (r: Vec<((u32, u32), ResizeFilter)>)
    ensures
        r@.len() == ico_sizes().len(),
        forall|i: int|
            0 <= i < r@.len() ==> #[trigger] r@[i] == (
                spec_ico_frame_size(ico_sizes()[i], width, height),
                spec_ico_frame_filter(
                    spec_ico_frame_size(ico_sizes()[i], width, height),
                    width,
                    height,
                ),
            ),
{
    let sizes: [u32; 9] = [16, 24, 32, 48, 64, 72, 96, 128, 256];
    assert(sizes@ =~= ico_sizes());
    let mut plan: Vec<((u32, u32), ResizeFilter)> = Vec::new();
    let mut i: usize = 0;
    while i < 9
        invariant
            0 <= i <= 9,
            sizes@ == ico_sizes(),
            plan@.len() == i,
            forall|j: int|
                0 <= j < i ==> #[trigger] plan@[j] == (
                    spec_ico_frame_size(ico_sizes()[j], width, height),
                    spec_ico_frame_filter(
                        spec_ico_frame_size(ico_sizes()[j], width, height),
                        width,
                        height,
                    ),
                ),
        decreases 9 - i,
    {
        let target = ico_frame_size(sizes[i], width, height);
        plan.push((target, ico_frame_filter(target, width, height)));
        i = i + 1;
    }
    plan
}

/// Decodes images with the `image` crate.
pub struct DynImageReader {}

/// Encodes images with the `image` crate; icons are written with one frame per size of
/// `ico_sizes`.
pub struct DynImageWriter {}

impl Default for DynImageReader {
    fn default() -> Self {
        DynImageReader {  }
    }
}

impl Default for DynImageWriter {
    fn default() -> Self {
        DynImageWriter {  }
    }
}

impl ImageReader for DynImageReader {
    fn load<T: Image>(&self, data: &[u8], format: ImageFormat) -> (r: Result<T, ImageLoadError>)
        ensures
            r is Ok <==> decodes_rgba8(data@) && rgba8_decoding(data@).2.len()
                == rgba8_decoding(data@).0 * rgba8_decoding(data@).1 * 4,
            r matches Ok(image) ==> (image.spec_width(), image.spec_height(), image.spec_bytes())
                == rgba8_decoding(data@),
            !decodes_rgba8(data@) ==> (r matches Err(e) && is_load_error_for(
                e,
                decoding_failure(data@),
                e.spec_message(),
            )),
            decodes_rgba8(data@) && rgba8_decoding(data@).2.len() != rgba8_decoding(data@).0
                * rgba8_decoding(data@).1 * 4 ==> r matches Err(ImageLoadError::OtherError(_)),
    {
        match decode_rgba8(data) {
            Ok((width, height, pixels)) => {
                proof {
                    lemma_u32_product(width, height);
                }
                if pixels.len() as u128 != width as u128 * height as u128 * 4 {
                    return Err(
                        ImageLoadError::OtherError(
                            String::from_str("decoded pixels do not match the image size"),
                        ),
                    );
                }
                Ok(T::from_parts(width, height, pixels, PixelFormat::Rgba8))
            },
            Err((kind, message)) => Err(ImageLoadError::from_codec(kind, message)),
        }
    }
}

impl DynImageWriter {
    /// Encodes `image` as an icon: one PNG frame for each entry of `ico_frame_plan`,
    /// resampled from the image with the planned filter.
    fn save_icon<T: Image>(&self, image: &T) -> (r: Result<Vec<u8>, ImageSaveError>)
        ensures
            r is Ok <==> ico_frames_nonempty(image.spec_width(), image.spec_height()),
            r matches Ok(bytes) ==> icon_header(bytes@, ico_sizes().len()),
            r matches Ok(bytes) ==> icon_frames(bytes@, image.spec_width(), image.spec_height()),
    {
        let width = image.width();
        let height = image.height();
        let plan = ico_frame_plan(width, height);
        proof {
            assert forall|j: int| 0 <= j < plan@.len() implies (#[trigger] plan@[j]).0.0 <= 256
                && plan@[j].0.1 <= 256 by {
                lemma_ico_frame_size_bounded(ico_sizes()[j], width, height);
            }
        }
        let mut resizer = FastResizer::new();
        let mut frames: Vec<IconFrame> = Vec::new();
        let mut i: usize = 0;
        while i < plan.len()
            invariant
                0 <= i <= plan@.len(),
                frames@.len() == i,
                plan@.len() == ico_sizes().len(),
                width == image.spec_width(),
                height == image.spec_height(),
                forall|j: int|
                    0 <= j < plan@.len() ==> (#[trigger] plan@[j]).0 == spec_ico_frame_size(
                        ico_sizes()[j],
                        width,
                        height,
                    ),
                forall|j: int|
                    0 <= j < plan@.len() ==> (#[trigger] plan@[j]).0.0 <= 256 && plan@[j].0.1
                        <= 256,
                forall|j: int|
                    0 <= j < i ==> (#[trigger] plan@[j]).0.0 >= 1 && plan@[j].0.1 >= 1,
                forall|j: int|
                    0 <= j < i ==> (#[trigger] frames@[j]).width == plan@[j].0.0
                        && frames@[j].height == plan@[j].0.1,
            decreases plan@.len() - i,
        {
            let (target, filter) = plan[i];
            assert(target.0 * target.1 * 4 <= usize::MAX) by (nonlinear_arith)
                requires
                    target.0 <= 256,
                    target.1 <= 256,
            ;
            let resized = match resizer.resize(image, target, filter) {
                Ok(resized) => resized,
                Err(e) => {
                    return Err(ImageSaveError::from_resize_error(&e));
                },
            };
            let frame = match png_frame(
                resized.as_bytes(),
                resized.width(),
                resized.height(),
                resized.pixel_format(),
            ) {
                Ok(frame) => frame,
                Err(e) => {
                    assert(!ico_frames_nonempty(width, height)) by {
                        assert(plan@[i as int].0 == spec_ico_frame_size(
                            ico_sizes()[i as int],
                            width,
                            height,
                        ));
                    }
                    return Err(save_error(e));
                },
            };
            frames.push(frame);
            i = i + 1;
        }
        assert(ico_frames_nonempty(width, height)) by {
            assert forall|j: int| 0 <= j < ico_sizes().len() implies #[trigger] spec_ico_frame_size(
                ico_sizes()[j],
                width,
                height,
            ).0 >= 1 && spec_ico_frame_size(ico_sizes()[j], width, height).1 >= 1 by {
                assert(plan@[j].0 == spec_ico_frame_size(ico_sizes()[j], width, height));
            }
        }
        let ghost built = frames@;
        match icon_container(frames) {
            Ok(bytes) => {
                assert forall|k: int| 0 <= k < ico_sizes().len() implies icon_entry(
                    bytes@,
                    k,
                    #[trigger] spec_ico_frame_size(ico_sizes()[k], width, height),
                ) by {
                    assert(built[k].width == plan@[k].0.0);
                    assert(icon_entry(bytes@, k, (built[k].width, built[k].height)));
                    assert(plan@[k].0 == spec_ico_frame_size(ico_sizes()[k], width, height));
                }
                Ok(bytes)
            },
            Err(e) => Err(save_error(e)),
        }
    }
}

/// Whether the directory of the icon in `bytes` lists, in order, one PNG frame for each
/// size of `ico_sizes`, sized as `spec_ico_frame_size` gives for a `width` × `height` image.
pub open spec fn icon_frames(bytes: Seq<u8>, width: u32, height: u32) -> bool {
    forall|i: int|
        0 <= i < ico_sizes().len() ==> icon_entry(
            bytes,
            i,
            #[trigger] spec_ico_frame_size(ico_sizes()[i], width, height),
        )
}

/// Whether every frame of an icon of a `width` × `height` image has both sides of at
/// least one pixel, which the icon format requires.
pub open spec fn ico_frames_nonempty(width: u32, height: u32) -> bool {
    forall|i: int|
        0 <= i < ico_sizes().len() ==> #[trigger] spec_ico_frame_size(ico_sizes()[i], width, height).0
            >= 1 && spec_ico_frame_size(ico_sizes()[i], width, height).1 >= 1
}

/// Whether `bytes` start with the header of an icon of `count` frames.
pub open spec fn icon_header(bytes: Seq<u8>, count: nat) -> bool {
    &&& bytes.len() >= 6
    &&& bytes[0] == 0 && bytes[1] == 0 && bytes[2] == 1 && bytes[3] == 0
    &&& bytes[4] + 256 * bytes[5] == count
}

impl ImageWriter for DynImageWriter {
    fn save<T: Image>(&self, image: &T, format: ImageFormat) -> (r: Result<Vec<u8>, ImageSaveError>)
        ensures
            format == ImageFormat::Ico ==> (r is Ok <==> ico_frames_nonempty(
                image.spec_width(),
                image.spec_height(),
            )),
            format == ImageFormat::Ico ==> (r matches Ok(bytes) ==> icon_header(
                bytes@,
                ico_sizes().len(),
            )),
            format == ImageFormat::Ico ==> (r matches Ok(bytes) ==> icon_frames(
                bytes@,
                image.spec_width(),
                image.spec_height(),
            )),
            format != ImageFormat::Ico ==> (r is Ok <==> encodes(
                image.spec_bytes(),
                image.spec_width(),
                image.spec_height(),
                image.spec_pixel_format(),
                format,
            )),
            format != ImageFormat::Ico ==> (r matches Ok(bytes) ==> bytes@ == encoding(
                image.spec_bytes(),
                image.spec_width(),
                image.spec_height(),
                image.spec_pixel_format(),
                format,
            )),
    {
        if format == ImageFormat::Ico {
            return self.save_icon(image);
        }
        match encode_buffer(
            image.as_bytes(),
            image.width(),
            image.height(),
            image.pixel_format(),
            format,
        ) {
            Ok(bytes) => Ok(bytes),
            Err(e) => Err(save_error(e)),
        }
    }
}

} // verus!
