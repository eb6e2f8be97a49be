use vstd::prelude::*;

use crate::imaging::{fits, Image, PixelFormat};

verus! {

/// An RGBA8 image: four bytes per pixel, rows top to bottom.
pub struct LoadedRgbaImage {
    width: u32,
    height: u32,
    data: Vec<u8>,
}

impl LoadedRgbaImage {
    #[verifier::type_invariant]
    spec fn well_formed(self) -> bool {
        fits(self.width, self.height, self.data@, PixelFormat::Rgba8)
    }
}

impl Image for LoadedRgbaImage {
    closed spec fn spec_width(&self) -> u32 {
        self.width
    }

    closed spec fn spec_height(&self) -> u32 {
        self.height
    }

    closed spec fn spec_bytes(&self) -> Seq<u8> {
        self.data@
    }

    open spec fn spec_pixel_format(&self) -> PixelFormat {
        PixelFormat::Rgba8
    }

    open spec fn holds_format(format: PixelFormat) -> bool {
        format == PixelFormat::Rgba8
    }

    fn width(&self) -> (r: u32) {
        self.width
    }

    fn height(&self) -> (r: u32) {
        self.height
    }

    fn as_bytes(&self) -> (r: &[u8]) {
        proof {
            use_type_invariant(self);
        }
        self.data.as_slice()
    }

    fn pixel_format(&self) -> (r: PixelFormat) {
        PixelFormat::Rgba8
    }

    fn from_parts(width: u32, height: u32, data: Vec<u8>, pixel_format: PixelFormat) -> (r: Self) {
        LoadedRgbaImage { width, height, data }
    }

    fn to_parts(self) -> (r: (u32, u32, Vec<u8>, PixelFormat)) {
        proof {
            use_type_invariant(&self);
        }
        (self.width, self.height, self.data, PixelFormat::Rgba8)
    }
}

} // verus!
