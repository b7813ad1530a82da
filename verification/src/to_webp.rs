//! WebP output: lossy at the quality of the settings, lossless at the top
//! of the range.

use crate::raster::{packed_len, RgbaImage};
use crate::settings::ConversionSettings;
use vstd::prelude::*;

verus! {

/// How the WebP encoder is asked to work.
#[derive(Clone, Copy, Debug, PartialEq, Eq, Structural)]
pub enum WebPMode {
    /// Lossy, at this quality.
    Lossy(u8),
    /// Without loss.
    Lossless,
}

/// The mode that a quality selects: below 100 lossy at that quality, from
/// 100 on lossless.
pub open spec fn webp_mode_for(quality: u8) -> WebPMode {
    if quality >= 100 {
        WebPMode::Lossless
    } else {
        WebPMode::Lossy(quality)
    }
}

/// The mode that a quality selects.
pub fn webp_mode(quality: u8) -> (mode: WebPMode)
    ensures
        mode == webp_mode_for(quality),
{
    if quality >= 100 {
        WebPMode::Lossless
    } else {
        WebPMode::Lossy(quality)
    }
}

impl WebPMode {
    /// Whether the encoder is switched to its lossless mode.
    pub open spec fn lossless_flag(self) -> bool {
        self is Lossless
    }

    /// The quality that the encoder is given: the mode's own when lossy,
    /// and 100 in the lossless mode.
    pub open spec fn quality_argument(self) -> u8 {
        match self {
            WebPMode::Lossy(quality) => quality,
            WebPMode::Lossless => 100,
        }
    }
}

/// The modes of the two qualities at the boundary do not meet: 99 is lossy
/// at 99, 100 is lossless, and no quality below 100 is lossless.
pub proof fn lemma_webp_boundary(quality: u8)
    ensures
        webp_mode_for(99) == WebPMode::Lossy(99),
        webp_mode_for(100) == WebPMode::Lossless,
        webp_mode_for(100).quality_argument() == 100,
        quality < 100 ==> webp_mode_for(quality) == WebPMode::Lossy(quality),
        quality >= 100 ==> webp_mode_for(quality) == WebPMode::Lossless,
{
}

/// The widest image that is handed to the encoder: its row of four bytes
/// per pixel can still be counted in an `i32`.
pub const WEBP_MAX_WIDTH: u32 = 0x1fff_ffff;

/// What the WebP encoder makes of an image: the bytes of the file, or the
/// name of its error.
pub uninterp spec fn webp_encoding(
    width: u32,
    height: u32,
    pixels: Seq<u8>,
    lossless: bool,
    quality: u8,
) -> Result<Seq<u8>, Seq<char>>;

/// Runs `webp::Encoder::from_rgba` and `encode_simple` with the two
/// arguments as given. The result is a copy of the encoder's memory, or the
/// `Debug` text of its `WebPEncodingError`. The contract gives that result
/// its name. `from_rgba` panics on a buffer that is shorter than the size
/// asks for, and counts a row's bytes in an `i32`: both are left out.
#[verifier::external_body]
fn webp_encode(width: u32, height: u32, pixels: &[u8], lossless: bool, quality: u8) -> (encoded:
    Result<Vec<u8>, String>)
    requires
        pixels@.len() == packed_len(width, height),
        width <= WEBP_MAX_WIDTH,
    ensures
        crate::codec::encoded_view(encoded) == webp_encoding(
            width,
            height,
            pixels@,
            lossless,
            quality,
        ),
{
    let encoder = webp::Encoder::from_rgba(pixels, width, height);
    match encoder.encode_simple(lossless, quality.into()) {
        Ok(memory) => Ok(memory.to_vec()),
        Err(error) => Err(format!("{error:?}")),
    }
}

/// The result for an image that is wider than [`WEBP_MAX_WIDTH`]: the
/// encoder's name for a size it does not take.
pub open spec fn webp_too_wide() -> Result<Seq<u8>, Seq<char>> {
    Err("VP8_ENC_ERROR_BAD_DIMENSION"@)
}

/// Encodes `input` as WebP in the mode of the quality of `settings`.
pub fn convert_to_webp(input: &RgbaImage, settings: &ConversionSettings) -> (encoded: Result<
    Vec<u8>,
    String,
>)
    requires
        settings is WebP,
    ensures
        crate::codec::encoded_view(encoded) == if input@.width <= WEBP_MAX_WIDTH {
            webp_encoding(
                input@.width,
                input@.height,
                input@.pixels,
                webp_mode_for(settings->WebP_1).lossless_flag(),
                webp_mode_for(settings->WebP_1).quality_argument(),
            )
        } else {
            webp_too_wide()
        },
{
    let mode = match settings {
        ConversionSettings::WebP(_, quality) => webp_mode(*quality),
        _ => WebPMode::Lossless,
    };
    if input.width() > WEBP_MAX_WIDTH {
        return Err("VP8_ENC_ERROR_BAD_DIMENSION".to_owned());
    }
    let pixels = input.as_raw().as_slice();
    match mode {
        WebPMode::Lossy(quality) => webp_encode(input.width(), input.height(), pixels, false, quality),
        WebPMode::Lossless => webp_encode(input.width(), input.height(), pixels, true, 100),
    }
}

} // verus!
