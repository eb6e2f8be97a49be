use image_converter::imaging::image_crate::{
    ico_frame_filter, ico_frame_plan, ico_frame_size, CodecErrorKind, DynImageReader,
    DynImageWriter,
};
use image_converter::imaging::rgba_image::LoadedRgbaImage;
use image_converter::imaging::{
    Image, ImageFormat, ImageLoadError, ImageReader, ImageSaveError, ImageWriter, PixelFormat,
};
use image_converter::resize::fast_resizer::FastResizer;
use image_converter::resize::{aspect_scaled, ResizeError, ResizeFilter, Resizer};

const ALL_FILTERS: [ResizeFilter; 7] = [
    ResizeFilter::Nearest,
    ResizeFilter::Bilinear,
    ResizeFilter::Hamming,
    ResizeFilter::CatmullRom,
    ResizeFilter::Mitchell,
    ResizeFilter::Gaussian,
    ResizeFilter::Lanczos3,
];

fn gradient(width: u32, height: u32) -> Vec<u8> {
    let mut data = Vec::new();
    for y in 0..height {
        for x in 0..width {
            data.push((x * 7 % 256) as u8);
            data.push((y * 13 % 256) as u8);
            data.push(((x + y) % 256) as u8);
            data.push(255);
        }
    }
    data
}

fn sample(width: u32, height: u32) -> LoadedRgbaImage {
    LoadedRgbaImage::from_parts(width, height, gradient(width, height), PixelFormat::Rgba8)
}

#[test]
fn extensions_of_each_format() {
    assert_eq!(ImageFormat::Png.extensions_str(), &["png"]);
    assert_eq!(ImageFormat::Jpeg.extensions_str(), &["jpg", "jpeg"]);
    assert_eq!(ImageFormat::Webp.extensions_str(), &["webp"]);
    assert_eq!(ImageFormat::Bmp.extensions_str(), &["bmp"]);
    assert_eq!(ImageFormat::Ico.extensions_str(), &["ico"]);
}

#[test]
fn destination_path_appends_missing_extension() {
    assert_eq!(ImageFormat::Png.destination_path("out"), "out.png");
}

#[test]
fn destination_path_keeps_matching_extension() {
    assert_eq!(ImageFormat::Png.destination_path("out.png"), "out.png");
}

#[test]
fn destination_path_accepts_any_extension_of_the_format() {
    assert_eq!(ImageFormat::Jpeg.destination_path("photo.jpeg"), "photo.jpeg");
    assert_eq!(ImageFormat::Jpeg.destination_path("photo.jpg"), "photo.jpg");
    assert_eq!(ImageFormat::Jpeg.destination_path("photo"), "photo.jpg");
}

#[test]
fn destination_path_needs_the_dot() {
    assert_eq!(ImageFormat::Png.destination_path("png"), "png.png");
    assert_eq!(ImageFormat::Ico.destination_path("iconico"), "iconico.ico");
    assert_eq!(ImageFormat::Bmp.destination_path(""), ".bmp");
}

#[test]
fn destination_path_of_other_format_appends() {
    assert_eq!(ImageFormat::Webp.destination_path("out.png"), "out.png.webp");
}

#[test]
fn destination_path_twice_is_the_same() {
    let once = ImageFormat::Bmp.destination_path("dir/picture");
    let twice = ImageFormat::Bmp.destination_path(&once);
    assert_eq!(once, "dir/picture.bmp");
    assert_eq!(once, twice);
}

#[test]
fn parts_round_trip() {
    let data = gradient(3, 2);
    let image = LoadedRgbaImage::from_parts(3, 2, data.clone(), PixelFormat::Rgba8);
    assert_eq!(image.width(), 3);
    assert_eq!(image.height(), 2);
    assert_eq!(image.as_bytes(), data.as_slice());
    assert_eq!(image.pixel_format(), PixelFormat::Rgba8);
    let (width, height, bytes, format) = image.to_parts();
    assert_eq!((width, height), (3, 2));
    assert_eq!(bytes, data);
    assert_eq!(format, PixelFormat::Rgba8);
}

#[test]
fn parts_round_trip_empty_image() {
    let image = LoadedRgbaImage::from_parts(0, 0, Vec::new(), PixelFormat::Rgba8);
    let (width, height, bytes, format) = image.to_parts();
    assert_eq!((width, height, bytes.len()), (0, 0, 0));
    assert_eq!(format, PixelFormat::Rgba8);
}

#[test]
fn resize_to_same_size_keeps_dimensions() {
    let source = sample(5, 4);
    let mut resizer = FastResizer::new();
    for filter in ALL_FILTERS {
        let resized = resizer.resize(&source, (5, 4), filter).unwrap();
        assert_eq!(resized.width(), 5);
        assert_eq!(resized.height(), 4);
        assert_eq!(resized.pixel_format(), PixelFormat::Rgba8);
        assert_eq!(resized.as_bytes().len(), 5 * 4 * 4);
    }
}

#[test]
fn resize_to_new_size() {
    let source = sample(8, 6);
    let mut resizer = FastResizer::default();
    let larger = resizer.resize(&source, (17, 3), ResizeFilter::Mitchell).unwrap();
    assert_eq!((larger.width(), larger.height()), (17, 3));
    assert_eq!(larger.as_bytes().len(), 17 * 3 * 4);
    let smaller = resizer.resize(&source, (2, 2), ResizeFilter::default()).unwrap();
    assert_eq!((smaller.width(), smaller.height()), (2, 2));
    assert_eq!(smaller.as_bytes().len(), 16);
}

#[test]
fn resize_of_uniform_image_stays_uniform() {
    let data = vec![10u8, 20, 30, 255].repeat(16);
    let source = LoadedRgbaImage::from_parts(4, 4, data, PixelFormat::Rgba8);
    let mut resizer = FastResizer::new();
    let resized = resizer.resize(&source, (2, 2), ResizeFilter::Nearest).unwrap();
    assert_eq!(resized.as_bytes(), vec![10u8, 20, 30, 255].repeat(4).as_slice());
}

#[test]
fn default_filter_is_lanczos3() {
    assert_eq!(ResizeFilter::default(), ResizeFilter::Lanczos3);
}

#[test]
fn ico_frame_size_keeps_aspect_ratio() {
    assert_eq!(ico_frame_size(16, 100, 50), (16, 8));
    assert_eq!(ico_frame_size(16, 50, 100), (8, 16));
    assert_eq!(ico_frame_size(256, 3, 2), (256, 170));
    assert_eq!(ico_frame_size(48, 7, 7), (48, 48));
    assert_eq!(ico_frame_size(16, 1000, 1), (16, 0));
}

#[test]
fn ico_frame_filter_by_pixel_count() {
    assert_eq!(ico_frame_filter((16, 16), 8, 8), ResizeFilter::Mitchell);
    assert_eq!(ico_frame_filter((16, 16), 100, 100), ResizeFilter::Lanczos3);
    assert_eq!(ico_frame_filter((16, 16), 16, 16), ResizeFilter::Lanczos3);
    assert_eq!(ico_frame_filter((16, 16), 32, 8), ResizeFilter::Lanczos3);
}

#[test]
fn ico_frame_plan_for_wide_image() {
    let plan = ico_frame_plan(64, 32);
    let expected = [
        ((16, 8), ResizeFilter::Lanczos3),
        ((24, 12), ResizeFilter::Lanczos3),
        ((32, 16), ResizeFilter::Lanczos3),
        ((48, 24), ResizeFilter::Lanczos3),
        ((64, 32), ResizeFilter::Lanczos3),
        ((72, 36), ResizeFilter::Mitchell),
        ((96, 48), ResizeFilter::Mitchell),
        ((128, 64), ResizeFilter::Mitchell),
        ((256, 128), ResizeFilter::Mitchell),
    ];
    assert_eq!(plan, expected.to_vec());
}

#[test]
fn ico_frame_plan_for_tall_image() {
    let plan = ico_frame_plan(10, 20);
    assert_eq!(plan.len(), 9);
    assert_eq!(plan[0], ((8, 16), ResizeFilter::Lanczos3));
    assert_eq!(plan[8], ((128, 256), ResizeFilter::Mitchell));
}

#[test]
fn save_ico_has_nine_frames() {
    let source = sample(40, 40);
    let bytes = DynImageWriter::default().save(&source, ImageFormat::Ico).unwrap();
    assert_eq!(&bytes[0..6], &[0, 0, 1, 0, 9, 0]);
    let sizes: Vec<u8> = (0..9).map(|i| bytes[6 + 16 * i]).collect();
    assert_eq!(sizes, vec![16, 24, 32, 48, 64, 72, 96, 128, 0]);
    for i in 0..9 {
        assert_eq!(bytes[6 + 16 * i], bytes[7 + 16 * i]);
    }
}

#[test]
fn save_ico_reloads_at_largest_frame() {
    let source = sample(30, 30);
    let bytes = DynImageWriter::default().save(&source, ImageFormat::Ico).unwrap();
    let loaded: LoadedRgbaImage = DynImageReader::default().load(&bytes, ImageFormat::Ico).unwrap();
    assert_eq!((loaded.width(), loaded.height()), (256, 256));
}

#[test]
fn save_ico_of_very_wide_image_fails() {
    let source = sample(200, 1);
    let result = DynImageWriter::default().save(&source, ImageFormat::Ico);
    assert!(result.is_err());
}

#[test]
fn png_round_trip_is_lossless() {
    let source = sample(7, 5);
    let bytes = DynImageWriter::default().save(&source, ImageFormat::Png).unwrap();
    assert_eq!(&bytes[0..4], &[0x89, b'P', b'N', b'G']);
    let loaded: LoadedRgbaImage = DynImageReader::default().load(&bytes, ImageFormat::Png).unwrap();
    assert_eq!(loaded.width(), 7);
    assert_eq!(loaded.height(), 5);
    assert_eq!(loaded.pixel_format(), PixelFormat::Rgba8);
    assert_eq!(loaded.as_bytes(), source.as_bytes());
}

#[test]
fn bmp_and_webp_encode() {
    let source = sample(4, 3);
    let writer = DynImageWriter::default();
    let bmp = writer.save(&source, ImageFormat::Bmp).unwrap();
    assert_eq!(&bmp[0..2], b"BM");
    let webp = writer.save(&source, ImageFormat::Webp).unwrap();
    assert_eq!(&webp[0..4], b"RIFF");
    let reader = DynImageReader::default();
    let loaded: LoadedRgbaImage = reader.load(&webp, ImageFormat::Webp).unwrap();
    assert_eq!((loaded.width(), loaded.height()), (4, 3));
}

#[test]
fn jpeg_of_rgba_is_unsupported() {
    let source = sample(4, 3);
    let result = DynImageWriter::default().save(&source, ImageFormat::Jpeg);
    assert!(matches!(result, Err(ImageSaveError::UnsupportedError(_))));
}

#[test]
fn load_of_garbage_fails() {
    let result: Result<LoadedRgbaImage, ImageLoadError> =
        DynImageReader::default().load(&[1, 2, 3, 4, 5], ImageFormat::Png);
    assert!(matches!(result, Err(ImageLoadError::UnsupportedError(_))));
}

#[test]
fn load_of_truncated_png_fails_decoding() {
    let source = sample(7, 5);
    let bytes = DynImageWriter::default().save(&source, ImageFormat::Png).unwrap();
    let result: Result<LoadedRgbaImage, ImageLoadError> =
        DynImageReader::default().load(&bytes[0..40], ImageFormat::Png);
    assert!(result.is_err());
}

#[test]
fn load_errors_from_codec_kinds() {
    let m = || String::from("m");
    assert!(matches!(ImageLoadError::from_codec(CodecErrorKind::Decoding, m()), ImageLoadError::DecodingError(s) if s == "m"));
    assert!(matches!(ImageLoadError::from_codec(CodecErrorKind::Encoding, m()), ImageLoadError::OtherError(_)));
    assert!(matches!(ImageLoadError::from_codec(CodecErrorKind::Parameter, m()), ImageLoadError::ParameterError(_)));
    assert!(matches!(ImageLoadError::from_codec(CodecErrorKind::Limits, m()), ImageLoadError::OtherError(_)));
    assert!(matches!(ImageLoadError::from_codec(CodecErrorKind::Unsupported, m()), ImageLoadError::UnsupportedError(_)));
    assert!(matches!(ImageLoadError::from_codec(CodecErrorKind::Io, m()), ImageLoadError::IOError(_)));
}

#[test]
fn save_errors_from_codec_kinds() {
    let m = || String::from("m");
    assert!(matches!(ImageSaveError::from_codec(CodecErrorKind::Decoding, m()), ImageSaveError::OtherError(_)));
    assert!(matches!(ImageSaveError::from_codec(CodecErrorKind::Encoding, m()), ImageSaveError::EncodingError(s) if s == "m"));
    assert!(matches!(ImageSaveError::from_codec(CodecErrorKind::Parameter, m()), ImageSaveError::ParameterError(_)));
    assert!(matches!(ImageSaveError::from_codec(CodecErrorKind::Limits, m()), ImageSaveError::OtherError(_)));
    assert!(matches!(ImageSaveError::from_codec(CodecErrorKind::Unsupported, m()), ImageSaveError::UnsupportedError(_)));
    assert!(matches!(ImageSaveError::from_codec(CodecErrorKind::Io, m()), ImageSaveError::IOError(_)));
}

#[test]
fn aspect_scaled_rounds_down() {
    assert_eq!(aspect_scaled(100, 3, 4), 75);
    assert_eq!(aspect_scaled(10, 2, 3), 6);
    assert_eq!(aspect_scaled(7, 5, 0), 0);
    assert_eq!(aspect_scaled(u32::MAX, 2, 1), u32::MAX);
}

#[test]
fn resize_small_image_with_every_filter() {
    let source = LoadedRgbaImage::from_parts(3, 2, (0u8..24).collect(), PixelFormat::Rgba8);
    let mut resizer = FastResizer::new();
    for filter in ALL_FILTERS {
        let resized = resizer.resize(&source, (3, 2), filter).unwrap();
        assert_eq!((resized.width(), resized.height()), (3, 2));
        assert_eq!(resized.as_bytes().len(), 24);
    }
}

#[test]
fn two_resizers_agree() {
    let source = sample(9, 7);
    let mut used = FastResizer::new();
    let _ = used.resize(&sample(20, 20), (3, 3), ResizeFilter::Gaussian).unwrap();
    let mut fresh = FastResizer::new();
    let a = used.resize(&source, (13, 4), ResizeFilter::Lanczos3).unwrap();
    let b = fresh.resize(&source, (13, 4), ResizeFilter::Lanczos3).unwrap();
    assert_eq!(a.as_bytes(), b.as_bytes());
}

#[test]
fn save_ico_of_square_image_frame_sizes() {
    let source = LoadedRgbaImage::from_parts(32, 32, vec![0u8; 4096], PixelFormat::Rgba8);
    let bytes = DynImageWriter::default().save(&source, ImageFormat::Ico).unwrap();
    assert_eq!(&bytes[0..6], &[0, 0, 1, 0, 9, 0]);
    let entries: Vec<(u8, u8)> = (0..9).map(|i| (bytes[6 + 16 * i], bytes[7 + 16 * i])).collect();
    let expected: Vec<(u8, u8)> =
        [16u8, 24, 32, 48, 64, 72, 96, 128, 0].iter().map(|&s| (s, s)).collect();
    assert_eq!(entries, expected);
    let offset = u32::from_le_bytes([bytes[18], bytes[19], bytes[20], bytes[21]]) as usize;
    assert_eq!(&bytes[offset..offset + 4], &[0x89, b'P', b'N', b'G']);
}

#[test]
fn save_ico_of_wide_image_frame_sizes() {
    let source = LoadedRgbaImage::from_parts(64, 32, vec![0u8; 8192], PixelFormat::Rgba8);
    let bytes = DynImageWriter::default().save(&source, ImageFormat::Ico).unwrap();
    let entries: Vec<(u8, u8)> = (0..9).map(|i| (bytes[6 + 16 * i], bytes[7 + 16 * i])).collect();
    assert_eq!(
        entries,
        vec![(16, 8), (24, 12), (32, 16), (48, 24), (64, 32), (72, 36), (96, 48), (128, 64), (0, 128)]
    );
}

#[test]
fn save_ico_of_thin_image_fails() {
    let source = LoadedRgbaImage::from_parts(1000, 1, vec![0u8; 4000], PixelFormat::Rgba8);
    let result = DynImageWriter::default().save(&source, ImageFormat::Ico);
    assert!(result.is_err());
}

#[test]
fn load_ignores_the_format_hint() {
    let source = sample(6, 6);
    let bytes = DynImageWriter::default().save(&source, ImageFormat::Png).unwrap();
    let reader = DynImageReader::default();
    let a: LoadedRgbaImage = reader.load(&bytes, ImageFormat::Png).unwrap();
    let b: LoadedRgbaImage = reader.load(&bytes, ImageFormat::Bmp).unwrap();
    assert_eq!(a.as_bytes(), b.as_bytes());
    assert_eq!(a.as_bytes(), source.as_bytes());
}

#[test]
fn io_errors_become_io_variants() {
    let e = std::io::Error::new(std::io::ErrorKind::NotFound, "missing");
    assert!(matches!(ImageLoadError::from_io_error(e), ImageLoadError::IOError(s) if s == "missing"));
    let e = std::io::Error::new(std::io::ErrorKind::PermissionDenied, "denied");
    assert!(matches!(ImageSaveError::from_io_error(e), ImageSaveError::IOError(s) if s == "denied"));
}

#[test]
fn resize_errors_become_other_errors() {
    let e = ResizeError::ResizeError(String::from("bad"));
    let saved = ImageSaveError::from_resize_error(&e);
    assert!(matches!(saved, ImageSaveError::OtherError(s) if s == "ResizeError(\"bad\")"));
}

#[test]
fn resize_error_debug_text_escapes_message() {
    let e = ResizeError::ResizeBufferError(String::from("a\"b"));
    assert_eq!(e.debug_text(), "ResizeBufferError(\"a\\\"b\")");
    assert_eq!(format!("{e:?}"), e.debug_text());
}

#[test]
fn load_error_kind_ignores_the_format_hint() {
    let reader = DynImageReader::default();
    let a: Result<LoadedRgbaImage, ImageLoadError> = reader.load(&[9, 9, 9, 9], ImageFormat::Png);
    let b: Result<LoadedRgbaImage, ImageLoadError> = reader.load(&[9, 9, 9, 9], ImageFormat::Ico);
    assert!(matches!(a, Err(ImageLoadError::UnsupportedError(_))));
    assert!(matches!(b, Err(ImageLoadError::UnsupportedError(_))));
}
