//! The preview of a source image: the size it is scaled to, and the
//! extraction of its pixels from a decoded plane whose rows may be padded.

use crate::raster::{packed_len, RasterView, RgbaImage};
use vstd::prelude::*;

verus! {

/// The height of every preview, in pixels.
pub const THUMBNAIL_HEIGHT: u32 = 500;

/// The width that keeps the aspect ratio of a `width` by `height` image at
/// the height of a preview, rounded down.
pub open spec fn scaled_width(width: u32, height: u32) -> int {
    (width * THUMBNAIL_HEIGHT) / (height as int)
}

/// The size to which an image of `width` by `height` pixels is scaled for
/// its preview: [`THUMBNAIL_HEIGHT`] high, and as wide as keeps the aspect
/// ratio, rounded down and held to what a `u32` can say. An image without
/// rows has no preview.
pub fn thumbnail_size(width: u32, height: u32) -> (size: Option<(u32, u32)>)
    ensures
        match size {
            Some((w, h)) => {
                &&& height > 0
                &&& h == THUMBNAIL_HEIGHT
                &&& w == if scaled_width(width, height) > u32::MAX {
                    u32::MAX as int
                } else {
                    scaled_width(width, height)
                }
                &&& w * height <= width * THUMBNAIL_HEIGHT
            },
            None => height == 0,
        },
{
    if height == 0 {
        return None;
    }
    assert(width * THUMBNAIL_HEIGHT <= 0xffff_ffff * 500) by (nonlinear_arith)
        requires
            width <= 0xffff_ffff,
            THUMBNAIL_HEIGHT == 500,
    ;
    let scaled: u64 = (width as u64) * (THUMBNAIL_HEIGHT as u64) / (height as u64);
    assert(scaled * height <= width * THUMBNAIL_HEIGHT) by (nonlinear_arith)
        requires
            height > 0,
            scaled == (width * THUMBNAIL_HEIGHT) / (height as int),
    ;
    let w: u32 = if scaled > u32::MAX as u64 {
        u32::MAX
    } else {
        scaled as u32
    };
    assert(w * height <= scaled * height) by (nonlinear_arith)
        requires
            w <= scaled,
            height > 0,
    ;
    Some((w, THUMBNAIL_HEIGHT))
}

/// Why the pixels of a plane could not be extracted.
#[derive(Clone, Copy, Debug, PartialEq, Eq, Structural)]
pub enum PlaneError {
    /// The rows start less than a row's bytes apart.
    StrideTooSmall,
    /// The plane ends before its last row does.
    PlaneTooSmall,
}

/// The rows start at least a row's bytes apart, in a plane that has pixels.
pub open spec fn stride_fits(stride: usize, width: u32, height: u32) -> bool {
    width == 0 || height == 0 || stride >= 4 * width
}

/// The plane reaches to the end of its last row.
pub open spec fn plane_fits(len: nat, stride: usize, width: u32, height: u32) -> bool {
    width == 0 || height == 0 || (height - 1) * stride + 4 * width <= len
}

/// The byte of a plane that stands at place `i` of the packed image: byte
/// `i % (4 * width)` of row `i / (4 * width)`, where row `r` starts at
/// `r * stride`.
pub open spec fn plane_byte(data: Seq<u8>, stride: usize, width: u32, i: int) -> u8 {
    data[(i / (4 * width)) * stride + i % (4 * width)]
}

/// The rows of a plane, without the padding between them.
pub open spec fn unpadded(data: Seq<u8>, stride: usize, width: u32, height: u32) -> Seq<u8> {
    Seq::new(packed_len(width, height) as nat, |i: int| plane_byte(data, stride, width, i))
}

/// Channel `c` of the pixel in column `x` of row `y` of the packed image is
/// the byte of the plane at `y * stride + x * 4 + c`.
pub proof fn lemma_unpadded_pixel(
    data: Seq<u8>,
    stride: usize,
    width: u32,
    height: u32,
    x: int,
    y: int,
    c: int,
)
    requires
        0 <= x < width,
        0 <= y < height,
        0 <= c < 4,
    ensures
        0 <= (y * width + x) * 4 + c < unpadded(data, stride, width, height).len(),
        unpadded(data, stride, width, height)[(y * width + x) * 4 + c] == data[y * stride + x * 4
            + c],
{
    let row = 4 * width;
    let i = (y * width + x) * 4 + c;
    let within = x * 4 + c;
    assert(i == y * row + within) by (nonlinear_arith)
        requires
            i == (y * width + x) * 4 + c,
            row == 4 * width,
            within == x * 4 + c,
    ;
    assert(0 <= within < row);
    vstd::arithmetic::div_mod::lemma_fundamental_div_mod_converse(i, row, y, within);
    assert(i < 4 * width * height) by (nonlinear_arith)
        requires
            i == y * row + within,
            within < row,
            row == 4 * width,
            0 <= y < height,
    ;
    assert(0 <= i) by (nonlinear_arith)
        requires
            i == y * row + within,
            0 <= within,
            0 <= row,
            0 <= y,
    ;
}

/// Copies the pixels of a decoded plane into a tightly packed image. Row
/// `r` of the plane starts at byte `r * stride`; whatever stands between
/// the end of a row and the start of the next is left out.
pub fn extract_rgba(data: &[u8], stride: usize, width: u32, height: u32) -> (image: Result<
    RgbaImage,
    PlaneError,
>)
    ensures
        match image {
            Ok(image) => {
                &&& stride_fits(stride, width, height)
                &&& plane_fits(data@.len(), stride, width, height)
                &&& image@ == (RasterView {
                    width,
                    height,
                    pixels: unpadded(data@, stride, width, height),
                })
            },
            Err(PlaneError::StrideTooSmall) => !stride_fits(stride, width, height),
            Err(PlaneError::PlaneTooSmall) => stride_fits(stride, width, height) && !plane_fits(
                data@.len(),
                stride,
                width,
                height,
            ),
        },
{
    let mut out: Vec<u8> = Vec::new();
    if width != 0 && height != 0 {
        let row: u64 = 4 * (width as u64);
        if (stride as u64) < row {
            return Err(PlaneError::StrideTooSmall);
        }
        assert((height - 1) * stride <= 0xffff_ffff * 0xffff_ffff_ffff_ffff) by (nonlinear_arith)
            requires
                0 <= height - 1 <= 0xffff_ffff,
                0 <= stride <= 0xffff_ffff_ffff_ffff,
        ;
        let needed: u128 = ((height - 1) as u128) * (stride as u128) + (row as u128);
        if needed > data.len() as u128 {
            return Err(PlaneError::PlaneTooSmall);
        }
        let len: usize = data.len();
        let row_bytes: usize = row as usize;
        let rows: usize = height as usize;
        let mut y: usize = 0;
        while y < rows
            invariant
                y <= rows,
                rows == height,
                row_bytes == 4 * width,
                row_bytes > 0,
                row_bytes <= stride,
                (height - 1) * stride + row_bytes <= data@.len(),
                len == data@.len(),
                out@.len() == y * row_bytes,
                forall|i: int| 0 <= i < out@.len() ==> out@[i] == plane_byte(data@, stride, width, i),
            decreases rows - y,
        {
            assert(y * stride <= (height - 1) * stride) by (nonlinear_arith)
                requires
                    0 <= y <= height - 1,
                    0 <= stride,
            ;
            let start: usize = y * stride;
            let mut x: usize = 0;
            while x < row_bytes
                invariant
                    x <= row_bytes,
                    y < rows,
                    rows == height,
                    row_bytes == 4 * width,
                    row_bytes > 0,
                    start == y * stride,
                    start + row_bytes <= data@.len(),
                    len == data@.len(),
                    out@.len() == y * row_bytes + x,
                    forall|i: int|
                        0 <= i < out@.len() ==> out@[i] == plane_byte(data@, stride, width, i),
                decreases row_bytes - x,
            {
                proof {
                    let i = y * row_bytes + x;
                    vstd::arithmetic::div_mod::lemma_fundamental_div_mod_converse(
                        i as int,
                        row_bytes as int,
                        y as int,
                        x as int,
                    );
                }
                out.push(data[start + x]);
                x += 1;
            }
            assert((y + 1) * row_bytes == y * row_bytes + row_bytes) by (nonlinear_arith);
            y += 1;
        }
        assert(out@.len() == packed_len(width, height)) by (nonlinear_arith)
            requires
                out@.len() == height * row_bytes,
                row_bytes == 4 * width,
        ;
    } else {
        assert(packed_len(width, height) == 0) by (nonlinear_arith)
            requires
                width == 0 || height == 0,
        ;
    }
    assert(out@ =~= unpadded(data@, stride, width, height));
    match RgbaImage::from_raw(width, height, out) {
        Some(image) => Ok(image),
        None => Err(PlaneError::PlaneTooSmall),
    }
}

impl PlaneError {
    /// A message for the failure, for a person to read.
    pub fn message(&self) -> (text: &'static str)
        ensures
            text@ == match self {
                PlaneError::StrideTooSmall => "the rows of the decoded plane overlap"@,
                PlaneError::PlaneTooSmall => "the decoded plane ends before its last row"@,
            },
    {
        match self {
            PlaneError::StrideTooSmall => "the rows of the decoded plane overlap",
            PlaneError::PlaneTooSmall => "the decoded plane ends before its last row",
        }
    }
}

} // verus!
