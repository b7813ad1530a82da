//! Decoding of a source file that was read into memory.

use crate::raster::{packed_len, RasterView, RgbaImage};
use vstd::prelude::*;

verus! {

/// The message for a decoder that hands back more or fewer bytes than the
/// size of its image asks for.
pub open spec fn wrong_size_message() -> Seq<char> {
    "the decoded buffer does not match the size of the image"@
}

/// Calls `image::load_from_memory`, which guesses the format from the
/// bytes and decodes them, and `DynamicImage::into_rgba8` on its image.
/// Hands back the width, the height and the raw buffer of that image, or
/// the text of the `image::ImageError`. Which formats are known depends on
/// the decoders that the process has registered, so nothing is promised of
/// the result.
#[verifier::external_body]
fn load_rgba8(bytes: &[u8]) -> (decoded: Result<(u32, u32, Vec<u8>), String>) {
    match image::load_from_memory(bytes) {
        Ok(image) => {
            let rgba = image.into_rgba8();
            Ok((rgba.width(), rgba.height(), rgba.into_raw()))
        },
        Err(error) => Err(error.to_string()),
    }
}

/// Takes what a decoder handed back: its message if it failed, its image
/// if the buffer holds exactly the bytes of the size, and otherwise the
/// message for a buffer of the wrong size.
pub fn raster_from_decoder(decoded: Result<(u32, u32, Vec<u8>), String>) -> (image: Result<
    RgbaImage,
    String,
>)
    ensures
        match decoded {
            Ok((width, height, pixels)) => if pixels@.len() == packed_len(width, height) {
                image matches Ok(raster) && raster@ == (RasterView {
                    width,
                    height,
                    pixels: pixels@,
                })
            } else {
                image matches Err(message) && message@ == wrong_size_message()
            },
            Err(text) => image matches Err(message) && message@ == text@,
        },
{
    match decoded {
        Ok((width, height, pixels)) => match RgbaImage::from_raw(width, height, pixels) {
            Some(raster) => Ok(raster),
            None => Err("the decoded buffer does not match the size of the image".to_owned()),
        },
        Err(text) => Err(text),
    }
}

/// Decodes the bytes of a source file into RGBA pixels of 8 bits per
/// channel. The format is guessed from the bytes. A failure comes back as
/// the decoder's message.
pub fn decode_source(bytes: &[u8]) -> (image: Result<RgbaImage, String>)
    ensures
        image matches Ok(raster) ==> raster@.pixels.len() == packed_len(
            raster@.width,
            raster@.height,
        ),
{
    raster_from_decoder(load_rgba8(bytes))
}

} // verus!
