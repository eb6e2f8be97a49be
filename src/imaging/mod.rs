use vstd::prelude::*;
use vstd::string::*;

pub mod image_crate;
pub mod rgba_image;

verus! {

/// Layout of the pixels in an image buffer.
#[derive(Debug, Clone, Copy, PartialEq, Eq, Structural)]
pub enum PixelFormat {
    Rgba8,
    Rgb8,
}

/// Number of bytes one pixel takes in the given layout.
pub open spec fn bytes_per_pixel(format: PixelFormat) -> nat {
    match format {
        PixelFormat::Rgba8 => 4,
        PixelFormat::Rgb8 => 3,
    }
}

/// File formats that images can be written in.
#[derive(Debug, Clone, Copy, PartialEq, Eq, Structural)]
pub enum ImageFormat {
    Png,
    Ico,
    Jpeg,
    Webp,
    Bmp,
}

impl ImageFormat {
    /// The file extensions recognised for this format, without the dot;
    /// the first one is the canonical extension.
    pub open spec fn extensions(self) -> Seq<Seq<char>> {
        match self {
            ImageFormat::Png => seq!["png"@],
            ImageFormat::Jpeg => seq!["jpg"@, "jpeg"@],
            ImageFormat::Webp => seq!["webp"@],
            ImageFormat::Bmp => seq!["bmp"@],
            ImageFormat::Ico => seq!["ico"@],
        }
    }

    #[must_use]
    pub fn extensions_str(self) -> (r: &'static [&'static str])
        ensures
            r@.len() == self.extensions().len(),
            forall|i: int| 0 <= i < r@.len() ==> #[trigger] r@[i]@ == self.extensions()[i],
    {
        match self {
            ImageFormat::Png => &["png"],
            ImageFormat::Jpeg => &["jpg", "jpeg"],
            ImageFormat::Webp => &["webp"],
            ImageFormat::Bmp => &["bmp"],
            ImageFormat::Ico => &["ico"],
        }
    }
}

/// Whether `path` ends with a dot followed by `ext`.
pub open spec fn ends_with_extension(path: Seq<char>, ext: Seq<char>) -> bool {
    let suffix = seq!['.'] + ext;
    suffix.len() <= path.len() && path.subrange(path.len() - suffix.len(), path.len() as int)
        == suffix
}

impl ImageFormat {
    /// Whether `path` already ends with one of the extensions of this format.
    pub open spec fn names_path(self, path: Seq<char>) -> bool {
        exists|i: int|
            0 <= i < self.extensions().len() && ends_with_extension(
                path,
                #[trigger] self.extensions()[i],
            )
    }

    /// The path an image of this format is written to when the user picks `path`:
    /// `path` itself when it already carries one of the format's extensions,
    /// else `path` with a dot and the canonical extension appended.
    pub open spec fn spec_destination_path(self, path: Seq<char>) -> Seq<char> {
        if self.names_path(path) {
            path
        } else {
            path + seq!['.'] + self.extensions()[0]
        }
    }

    pub fn destination_path(self, path: &str) -> (r: String)
        ensures
            r@ == self.spec_destination_path(path@),
    {
        let extensions = self.extensions_str();
        let mut i: usize = 0;
        while i < extensions.len()
            invariant
                0 <= i <= extensions@.len(),
                extensions@.len() == self.extensions().len(),
                forall|j: int|
                    0 <= j < extensions@.len() ==> #[trigger] extensions@[j]@
                        == self.extensions()[j],
                forall|j: int| 0 <= j < i ==> !ends_with_extension(path@, self.extensions()[j]),
            decreases extensions@.len() - i,
        {
            if has_extension(path, extensions[i]) {
                return String::from_str(path);
            }
            i = i + 1;
        }
        let mut r = String::from_str(path);
        r.append(".");
        r.append(extensions[0]);
        proof {
            reveal_strlit(".");
        }
        r
    }
}

/// The destination path always carries an extension of the format; a path that already
/// carries one is kept as it is; and taking the destination path twice changes nothing.
pub proof fn lemma_destination_path(format: ImageFormat, path: Seq<char>)
    ensures
        format.names_path(format.spec_destination_path(path)),
        format.names_path(path) ==> format.spec_destination_path(path) == path,
        format.spec_destination_path(format.spec_destination_path(path))
            == format.spec_destination_path(path),
{
    let dest = format.spec_destination_path(path);
    if !format.names_path(path) {
        let ext = format.extensions()[0];
        let suffix = seq!['.'] + ext;
        assert(dest.subrange(dest.len() - suffix.len(), dest.len() as int) =~= suffix);
        assert(ends_with_extension(dest, format.extensions()[0]));
    }
}

/// Whether `path` ends with `.` followed by `ext`.
fn has_extension(path: &str, ext: &str) -> (r: bool)
    ensures
        r == ends_with_extension(path@, ext@),
{
    let path_len = path.unicode_len();
    let ext_len = ext.unicode_len();
    if ext_len >= path_len {
        return false;
    }
    let start = path_len - ext_len - 1;
    let ghost suffix = seq!['.'] + ext@;
    if path.get_char(start) != '.' {
        assert(path@.subrange(start as int, path_len as int)[0] != suffix[0]);
        return false;
    }
    let mut i: usize = 0;
    while i < ext_len
        invariant
            0 <= i <= ext_len,
            ext_len == ext@.len(),
            path_len == path@.len(),
            start + ext_len + 1 == path_len,
            suffix == seq!['.'] + ext@,
            forall|j: int| 0 <= j < i ==> path@[start + 1 + j] == ext@[j],
        decreases ext_len - i,
    {
        if path.get_char(start + 1 + i) != ext.get_char(i) {
            assert(path@.subrange(start as int, path_len as int)[i + 1] != suffix[i + 1]);
            return false;
        }
        i = i + 1;
    }
    assert(path@.subrange(start as int, path_len as int) =~= suffix);
    true
}


/// Why an image could not be loaded; each variant carries the codec's message.
#[derive(Debug)]
pub enum ImageLoadError {
    IOError(String),
    DecodingError(String),
    ParameterError(String),
    UnsupportedError(String),
    OtherError(String),
}

/// Why an image could not be saved; each variant carries the underlying message.
#[derive(Debug)]
pub enum ImageSaveError {
    IOError(String),
    EncodingError(String),
    ParameterError(String),
    UnsupportedError(String),
    OtherError(String),
}

/// Whether `data` holds exactly one pixel of `format` for each of the `width` × `height` places.
pub open spec fn fits(width: u32, height: u32, data: Seq<u8>, format: PixelFormat) -> bool {
    data.len() == width * height * bytes_per_pixel(format)
}

/// An in-memory raster image whose buffer always matches its size and pixel format.
pub trait Image: Sized {
    spec fn spec_width(&self) -> u32;

    spec fn spec_height(&self) -> u32;

    spec fn spec_bytes(&self) -> Seq<u8>;

    spec fn spec_pixel_format(&self) -> PixelFormat;

    /// Whether images of this kind hold pixels of `format`.
    spec fn holds_format(format: PixelFormat) -> bool;

    fn width(&self) -> (r: u32)
        ensures
            r == self.spec_width(),
    ;

    fn height(&self) -> (r: u32)
        ensures
            r == self.spec_height(),
    ;

    fn as_bytes(&self) -> (r: &[u8])
        ensures
            r@ == self.spec_bytes(),
            fits(self.spec_width(), self.spec_height(), r@, self.spec_pixel_format()),
    ;

    fn pixel_format(&self) -> (r: PixelFormat)
        ensures
            r == self.spec_pixel_format(),
            Self::holds_format(r),
    ;

    /// Builds an image from its width, height, pixel buffer and pixel format;
    /// the buffer must match the size and format exactly.
    fn from_parts(width: u32, height: u32, data: Vec<u8>, pixel_format: PixelFormat) -> (r: Self)
        requires
            Self::holds_format(pixel_format),
            fits(width, height, data@, pixel_format),
        ensures
            r.spec_width() == width,
            r.spec_height() == height,
            r.spec_bytes() == data@,
            r.spec_pixel_format() == pixel_format,
    ;

    /// Takes the image apart into width, height, pixel buffer and pixel format.
    fn to_parts(self) -> (r: (u32, u32, Vec<u8>, PixelFormat))
        ensures
            r.0 == self.spec_width(),
            r.1 == self.spec_height(),
            r.2@ == self.spec_bytes(),
            r.3 == self.spec_pixel_format(),
            fits(r.0, r.1, r.2@, r.3),
    ;
}


/// Something that turns encoded file contents into an image.
pub trait ImageReader {
    /// Decodes `data` into an RGBA8 image; the format is recognised from the bytes, and
    /// `format` is only a hint.
    fn load<T: Image>(&self, data: &[u8], format: ImageFormat) -> (r: Result<T, ImageLoadError>)
        requires
            T::holds_format(PixelFormat::Rgba8),
        ensures
            r matches Ok(image) ==> image.spec_pixel_format() == PixelFormat::Rgba8,
    ;
}

/// Something that turns an image into the contents of a file of a given format.
pub trait ImageWriter {
    /// Encodes `image` in `format`.
    fn save<T: Image>(&self, image: &T, format: ImageFormat) -> (r: Result<Vec<u8>, ImageSaveError>)
    ;
}

} // verus!
