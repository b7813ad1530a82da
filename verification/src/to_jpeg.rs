//! JPEG output: lossy at the quality of the settings, lossless at the top
//! of the range.

use crate::settings::ConversionSettings;
use vstd::prelude::*;

verus! {

/// How the JPEG compressor is asked to work.
#[derive(Clone, Copy, Debug, PartialEq, Eq, Structural)]
pub enum JpegMode {
    /// Lossy, at this quality, which the compressor gets as it is.
    Lossy(u8),
    /// Without loss.
    Lossless,
}

/// The mode that a quality selects: 100 is lossless, every other quality
/// is lossy at that quality.
pub open spec fn jpeg_mode_for(quality: u8) -> JpegMode {
    if quality == 100 {
        JpegMode::Lossless
    } else {
        JpegMode::Lossy(quality)
    }
}

/// The mode that a quality selects.
pub fn jpeg_mode(quality: u8) -> (mode: JpegMode)
    ensures
        mode == jpeg_mode_for(quality),
{
    if quality == 100 {
        JpegMode::Lossless
    } else {
        JpegMode::Lossy(quality)
    }
}

/// At the boundary, 100 is lossless and 99 is lossy at 99.
pub proof fn lemma_jpeg_boundary()
    ensures
        jpeg_mode_for(100) == JpegMode::Lossless,
        jpeg_mode_for(99) == JpegMode::Lossy(99),
        forall|quality: u8| quality != 100 ==> #[trigger] jpeg_mode_for(quality) == JpegMode::Lossy(quality),
{
}

/// The mode in which `settings` ask the JPEG compressor to work.
pub fn convert_to_jpeg(settings: &ConversionSettings) -> (mode: JpegMode)
    requires
        settings is JPEG,
    ensures
        mode == jpeg_mode_for(settings->JPEG_1),
{
    match settings {
        ConversionSettings::JPEG(_, quality) => jpeg_mode(*quality),
        _ => JpegMode::Lossless,
    }
}

} // verus!
