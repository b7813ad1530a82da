//! TIFF output: the settings pick one of three ways to compress.

use crate::raster::{packed_len, RgbaImage};
use crate::settings::{ConversionSettings, TIFFCompression};
use std::io::Cursor;
use tiff::encoder::colortype::RGBA8;
use tiff::encoder::compression::DeflateLevel;
use tiff::encoder::{Compression, TiffEncoder};
use vstd::prelude::*;

verus! {

/// How hard Deflate tries.
#[derive(Clone, Copy, Debug, PartialEq, Eq, Structural)]
pub enum TiffDeflateLevel {
    Fast,
    Balanced,
    Best,
}

/// The ways in which the TIFF encoder is asked to compress here.
#[derive(Clone, Copy, Debug, PartialEq, Eq, Structural)]
pub enum TiffStrategy {
    Uncompressed,
    Lzw,
    Deflate(TiffDeflateLevel),
}

/// The strategy that a kind of compression selects: none, LZW, or Deflate
/// at its balanced level. There are no levels in between.
pub open spec fn tiff_strategy_for(compression: TIFFCompression) -> TiffStrategy {
    match compression {
        TIFFCompression::Uncompressed => TiffStrategy::Uncompressed,
        TIFFCompression::LZW => TiffStrategy::Lzw,
        TIFFCompression::Deflate => TiffStrategy::Deflate(TiffDeflateLevel::Balanced),
    }
}

/// The strategy that a kind of compression selects.
pub fn tiff_strategy(compression: TIFFCompression) -> (strategy: TiffStrategy)
    ensures
        strategy == tiff_strategy_for(compression),
{
    match compression {
        TIFFCompression::Uncompressed => TiffStrategy::Uncompressed,
        TIFFCompression::LZW => TiffStrategy::Lzw,
        TIFFCompression::Deflate => TiffStrategy::Deflate(TiffDeflateLevel::Balanced),
    }
}

/// What the TIFF encoder makes of an image with a strategy: the bytes of
/// the file, or the text of its error.
pub uninterp spec fn tiff_encoding(
    width: u32,
    height: u32,
    pixels: Seq<u8>,
    strategy: TiffStrategy,
) -> Result<Seq<u8>, Seq<char>>;

/// Runs `tiff::encoder::TiffEncoder` over a cursor on an empty buffer:
/// `new`, `with_compression` with the `tiff::encoder::Compression` of the
/// same name as `strategy`, and one `write_image` of colour type `RGBA8`
/// with all of `pixels`. The result is the file it wrote, or the text of
/// the `tiff::TiffError` of the step that failed. The contract gives that
/// result its name.
#[verifier::external_body]
fn tiff_encode(width: u32, height: u32, pixels: &[u8], strategy: TiffStrategy) -> (encoded: Result<
    Vec<u8>,
    String,
>)
    requires
        pixels@.len() == packed_len(width, height),
    ensures
        crate::codec::encoded_view(encoded) == tiff_encoding(width, height, pixels@, strategy),
{
    let mut out = Vec::new();
    let encoder = TiffEncoder::new(Cursor::new(&mut out)).map_err(|e| e.to_string())?;
    let mut encoder = encoder.with_compression(match strategy {
        TiffStrategy::Uncompressed => Compression::Uncompressed,
        TiffStrategy::Lzw => Compression::Lzw,
        TiffStrategy::Deflate(TiffDeflateLevel::Fast) => Compression::Deflate(DeflateLevel::Fast),
        TiffStrategy::Deflate(TiffDeflateLevel::Balanced) => Compression::Deflate(DeflateLevel::Balanced),
        TiffStrategy::Deflate(TiffDeflateLevel::Best) => Compression::Deflate(DeflateLevel::Best),
    });
    let written = encoder.write_image::<RGBA8>(width, height, pixels);
    written.map(|_| out).map_err(|e| e.to_string())
}

/// Encodes `input` as TIFF with the strategy of the compression of
/// `settings`.
pub fn convert_to_tiff(input: &RgbaImage, settings: &ConversionSettings) -> (encoded: Result<
    Vec<u8>,
    String,
>)
    requires
        settings is TIFF,
    ensures
        crate::codec::encoded_view(encoded) == tiff_encoding(
            input@.width,
            input@.height,
            input@.pixels,
            tiff_strategy_for(settings->TIFF_1),
        ),
{
    let strategy = match settings {
        ConversionSettings::TIFF(_, compression) => tiff_strategy(*compression),
        _ => TiffStrategy::Uncompressed,
    };
    tiff_encode(input.width(), input.height(), input.as_raw().as_slice(), strategy)
}

} // verus!
