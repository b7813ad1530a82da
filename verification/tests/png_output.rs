use unheic::raster::RgbaImage;
use unheic::settings::ConversionSettings;
use unheic::to_png::{convert_to_png, png_preset, PngPreset};

fn sample() -> (Vec<u8>, RgbaImage) {
    let pixels: Vec<u8> = vec![
        255, 0, 0, 255, 0, 255, 0, 255, //
        0, 0, 255, 255, 10, 20, 30, 40,
    ];
    let image = RgbaImage::from_raw(2, 2, pixels.clone()).unwrap();
    (pixels, image)
}

#[test]
fn png_presets_change_at_the_band_boundaries() {
    assert_eq!(png_preset(0), PngPreset::NoCompression);
    assert_eq!(png_preset(1), PngPreset::Fastest);
    assert_eq!(png_preset(25), PngPreset::Fastest);
    assert_eq!(png_preset(26), PngPreset::Fast);
    assert_eq!(png_preset(50), PngPreset::Fast);
    assert_eq!(png_preset(51), PngPreset::Balanced);
    assert_eq!(png_preset(75), PngPreset::Balanced);
    assert_eq!(png_preset(76), PngPreset::High);
    assert_eq!(png_preset(100), PngPreset::High);
    assert_eq!(png_preset(255), PngPreset::High);
}

#[test]
fn png_round_trip_is_exact() {
    let (pixels, image) = sample();
    let encoded = convert_to_png(&image, &ConversionSettings::PNG(true, 75)).unwrap();
    assert_ne!(encoded, pixels);
    assert_eq!(&encoded[..8], &[137, 80, 78, 71, 13, 10, 26, 10]);
    let decoded = image::load_from_memory(&encoded).unwrap().into_rgba8();
    assert_eq!(decoded.width(), 2);
    assert_eq!(decoded.height(), 2);
    assert_eq!(decoded.into_raw(), pixels);
}

#[test]
fn png_of_an_empty_image_is_an_error() {
    let image = RgbaImage::from_raw(0, 0, Vec::new()).unwrap();
    assert!(convert_to_png(&image, &ConversionSettings::PNG(true, 75)).is_err());
}
