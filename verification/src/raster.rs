//! Decoded pixels: 8 bits per channel, four channels (red, green, blue,
//! alpha) per pixel, rows from top to bottom without padding between them.

use vstd::prelude::*;

verus! {

/// The number of bytes of one pixel.
pub const BYTES_PER_PIXEL: usize = 4;

/// What an image is: its size and its bytes.
pub struct RasterView {
    pub width: u32,
    pub height: u32,
    pub pixels: Seq<u8>,
}

/// The number of bytes of a tightly packed image of this size.
pub open spec fn packed_len(width: u32, height: u32) -> int {
    4 * width * height
}

/// An owned, tightly packed RGBA image.
#[derive(Debug)]
pub struct RgbaImage {
    width: u32,
    height: u32,
    pixels: Vec<u8>,
}

impl View for RgbaImage {
    type V = RasterView;

    closed spec fn view(&self) -> RasterView {
        RasterView { width: self.width, height: self.height, pixels: self.pixels@ }
    }
}

impl RgbaImage {
    #[verifier::type_invariant]
    spec fn packed(&self) -> bool {
        self.pixels@.len() == packed_len(self.width, self.height)
    }

    /// The image of the given size over `pixels`, if `pixels` holds exactly
    /// the bytes of that size.
    pub fn from_raw(width: u32, height: u32, pixels: Vec<u8>) -> (image: Option<RgbaImage>)
        ensures
            match image {
                Some(image) => image@ == (RasterView { width, height, pixels: pixels@ })
                    && pixels@.len() == packed_len(width, height),
                None => pixels@.len() != packed_len(width, height),
            },
    {
        assert(4 * width * height <= 4 * 0xffff_ffff * 0xffff_ffff) by (nonlinear_arith)
            requires
                width <= 0xffff_ffff,
                height <= 0xffff_ffff,
        ;
        let expected: u128 = 4 * (width as u128) * (height as u128);
        if pixels.len() as u128 == expected {
            Some(RgbaImage { width, height, pixels })
        } else {
            None
        }
    }

    /// The number of pixels in a row.
    pub fn width(&self) -> (width: u32)
        ensures
            width == self@.width,
    {
        self.width
    }

    /// The number of rows.
    pub fn height(&self) -> (height: u32)
        ensures
            height == self@.height,
    {
        self.height
    }

    /// The bytes, row by row.
    pub fn as_raw(&self) -> (pixels: &Vec<u8>)
        ensures
            pixels@ == self@.pixels,
            pixels@.len() == packed_len(self@.width, self@.height),
    {
        proof {
            use_type_invariant(self);
        }
        &self.pixels
    }

    /// The bytes, row by row, without the image around them.
    pub fn into_raw(self) -> (pixels: Vec<u8>)
        ensures
            pixels@ == self@.pixels,
            pixels@.len() == packed_len(self@.width, self@.height),
    {
        proof {
            use_type_invariant(&self);
        }
        self.pixels
    }
}

} // verus!
