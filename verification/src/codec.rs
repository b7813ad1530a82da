//! The codec dispatcher: from decoded pixels and the settings of a target
//! format to the bytes of the encoded file.

use crate::raster::{RasterView, RgbaImage};
use crate::settings::ConversionSettings;
use crate::to_jpeg::{convert_to_jpeg, jpeg_mode_for, JpegMode};
use crate::to_png::{convert_to_png, png_encoding, png_preset_for};
use crate::to_tiff::{convert_to_tiff, tiff_encoding, tiff_strategy_for};
use crate::to_webp::{convert_to_webp, webp_encoding, webp_mode_for, webp_too_wide, WEBP_MAX_WIDTH};
use vstd::prelude::*;

verus! {

/// The result of an encoder, with its bytes and its text as sequences.
pub open spec fn encoded_view(encoded: Result<Vec<u8>, String>) -> Result<Seq<u8>, Seq<char>> {
    match encoded {
        Ok(bytes) => Ok(bytes@),
        Err(message) => Err(message@),
    }
}

/// What the dispatcher hands back for one image.
#[derive(Debug)]
pub enum Conversion {
    /// The image went through the encoder of its format: the bytes of the
    /// file, or the encoder's message.
    Encoded(Result<Vec<u8>, String>),
    /// The image is to be compressed as JPEG in this mode. The JPEG
    /// compressor is bound to a native library and is run by the caller.
    Jpeg(JpegMode),
}

/// A dispatcher's result, with its bytes and its text as sequences.
pub enum ConversionView {
    Encoded(Result<Seq<u8>, Seq<char>>),
    Jpeg(JpegMode),
}

impl View for Conversion {
    type V = ConversionView;

    open spec fn view(&self) -> ConversionView {
        match self {
            Conversion::Encoded(encoded) => ConversionView::Encoded(encoded_view(*encoded)),
            Conversion::Jpeg(mode) => ConversionView::Jpeg(*mode),
        }
    }
}

/// What the dispatcher does with an image for each format: PNG at the
/// preset of the level, TIFF with the strategy of the compression, WebP in
/// the mode of the quality, and for JPEG the mode of the quality.
pub open spec fn dispatched(input: RasterView, settings: ConversionSettings) -> ConversionView {
    match settings {
        ConversionSettings::JPEG(_, quality) => ConversionView::Jpeg(jpeg_mode_for(quality)),
        ConversionSettings::PNG(_, level) => ConversionView::Encoded(
            png_encoding(input.width, input.height, input.pixels, png_preset_for(level)),
        ),
        ConversionSettings::TIFF(_, compression) => ConversionView::Encoded(
            tiff_encoding(
                input.width,
                input.height,
                input.pixels,
                tiff_strategy_for(compression),
            ),
        ),
        ConversionSettings::WebP(_, quality) => ConversionView::Encoded(
            if input.width <= WEBP_MAX_WIDTH {
                webp_encoding(
                    input.width,
                    input.height,
                    input.pixels,
                    webp_mode_for(quality).lossless_flag(),
                    webp_mode_for(quality).quality_argument(),
                )
            } else {
                webp_too_wide()
            },
        ),
    }
}

/// Sends `input` to the encoder of the format of `output_format`. Nothing
/// is read or written; an encoder's failure is handed back as its message,
/// and no other format is tried.
pub fn convert_to_format(input: &RgbaImage, output_format: &ConversionSettings) -> (conversion:
    Conversion)
    ensures
        conversion@ == dispatched(input@, *output_format),
{
    match output_format {
        ConversionSettings::JPEG(_, _) => Conversion::Jpeg(convert_to_jpeg(output_format)),
        ConversionSettings::PNG(_, _) => Conversion::Encoded(convert_to_png(input, output_format)),
        ConversionSettings::TIFF(_, _) => Conversion::Encoded(
            convert_to_tiff(input, output_format),
        ),
        ConversionSettings::WebP(_, _) => Conversion::Encoded(
            convert_to_webp(input, output_format),
        ),
    }
}

} // verus!
