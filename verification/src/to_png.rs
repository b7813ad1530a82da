//! PNG output: the compression level picks one of the encoder's five
//! presets.

use crate::raster::{packed_len, RgbaImage};
use crate::settings::ConversionSettings;
use png::{BitDepth, ColorType, Compression, Encoder};
use vstd::prelude::*;

verus! {

/// The presets of the PNG encoder.
#[derive(Clone, Copy, Debug, PartialEq, Eq, Structural)]
pub enum PngPreset {
    NoCompression,
    Fastest,
    Fast,
    Balanced,
    High,
}

/// The preset that a compression level selects: level 0 compresses
/// nothing, then each quarter of the range has its own preset.
pub open spec fn png_preset_for(level: u8) -> PngPreset {
    if level == 0 {
        PngPreset::NoCompression
    } else if level <= 25 {
        PngPreset::Fastest
    } else if level <= 50 {
        PngPreset::Fast
    } else if level <= 75 {
        PngPreset::Balanced
    } else {
        PngPreset::High
    }
}

/// The preset that a compression level selects.
pub fn png_preset(level: u8) -> (preset: PngPreset)
    ensures
        preset == png_preset_for(level),
{
    if level == 0 {
        PngPreset::NoCompression
    } else if level <= 25 {
        PngPreset::Fastest
    } else if level <= 50 {
        PngPreset::Fast
    } else if level <= 75 {
        PngPreset::Balanced
    } else {
        PngPreset::High
    }
}

/// Every level from 0 to 100 has exactly one preset, and the presets
/// change at the levels 1, 26, 51 and 76 and nowhere else.
pub proof fn lemma_png_bands(level: u8)
    requires
        level <= 100,
    ensures
        png_preset_for(level) == PngPreset::NoCompression <==> level == 0,
        png_preset_for(level) == PngPreset::Fastest <==> 1 <= level <= 25,
        png_preset_for(level) == PngPreset::Fast <==> 26 <= level <= 50,
        png_preset_for(level) == PngPreset::Balanced <==> 51 <= level <= 75,
        png_preset_for(level) == PngPreset::High <==> 76 <= level <= 100,
{
}

/// What the PNG encoder makes of an image at a preset: the bytes of the
/// file, or the text of its error.
pub uninterp spec fn png_encoding(
    width: u32,
    height: u32,
    pixels: Seq<u8>,
    preset: PngPreset,
) -> Result<Seq<u8>, Seq<char>>;

/// Runs `png::Encoder` on an RGBA image of 8 bits per channel, with the
/// `png::Compression` of the same name as `preset`: `write_header`, one
/// `write_image_data` with all of `pixels`, and `finish`. The result is the
/// file it wrote, or the text of the `png::EncodingError` of the first
/// step that failed. The contract gives that result its name.
#[verifier::external_body]
fn png_encode(width: u32, height: u32, pixels: &[u8], preset: PngPreset) -> (encoded: Result<
    Vec<u8>,
    String,
>)
    requires
        pixels@.len() == packed_len(width, height),
    ensures
        crate::codec::encoded_view(encoded) == png_encoding(width, height, pixels@, preset),
{
    let mut out = Vec::new();
    let mut encoder = Encoder::new(&mut out, width, height);
    encoder.set_color(ColorType::Rgba);
    encoder.set_depth(BitDepth::Eight);
    encoder.set_compression(match preset {
        PngPreset::NoCompression => Compression::NoCompression,
        PngPreset::Fastest => Compression::Fastest,
        PngPreset::Fast => Compression::Fast,
        PngPreset::Balanced => Compression::Balanced,
        PngPreset::High => Compression::High,
    });
    let mut writer = encoder.write_header().map_err(|e| e.to_string())?;
    writer.write_image_data(pixels).map_err(|e| e.to_string())?;
    writer.finish().map(|_| out).map_err(|e| e.to_string())
}

/// Encodes `input` as PNG at the preset of the compression level of
/// `settings`.
pub fn convert_to_png(input: &RgbaImage, settings: &ConversionSettings) -> (encoded: Result<
    Vec<u8>,
    String,
>)
    requires
        settings is PNG,
    ensures
        crate::codec::encoded_view(encoded) == png_encoding(
            input@.width,
            input@.height,
            input@.pixels,
            png_preset_for(settings->PNG_1),
        ),
{
    let preset = match settings {
        ConversionSettings::PNG(_, level) => png_preset(*level),
        _ => PngPreset::NoCompression,
    };
    png_encode(input.width(), input.height(), input.as_raw().as_slice(), preset)
}

} // verus!
