use unheic::settings::{
    file_extension_for_format, ConversionSettings, ConversionSettingsDiscriminants,
    TIFFCompression, MAX_LEVEL,
};

#[test]
fn each_format_starts_with_its_defaults() {
    assert_eq!(
        ConversionSettings::new(ConversionSettingsDiscriminants::JPEG),
        ConversionSettings::JPEG(true, 90)
    );
    assert_eq!(
        ConversionSettings::new(ConversionSettingsDiscriminants::PNG),
        ConversionSettings::PNG(true, 75)
    );
    assert_eq!(
        ConversionSettings::new(ConversionSettingsDiscriminants::TIFF),
        ConversionSettings::TIFF(true, TIFFCompression::Uncompressed)
    );
    assert_eq!(
        ConversionSettings::new(ConversionSettingsDiscriminants::WebP),
        ConversionSettings::WebP(true, 80)
    );
}

#[test]
fn variant_and_metadata_are_read_back() {
    let settings = ConversionSettings::WebP(false, 12);
    assert_eq!(settings.variant(), ConversionSettingsDiscriminants::WebP);
    assert!(!settings.preserve_metadata());
    assert_eq!(ConversionSettings::TIFF(true, TIFFCompression::LZW).variant(), ConversionSettingsDiscriminants::TIFF);
    assert_eq!(ConversionSettings::JPEG(true, 1).variant(), ConversionSettingsDiscriminants::JPEG);
    assert_eq!(ConversionSettings::PNG(true, 1).variant(), ConversionSettingsDiscriminants::PNG);
}

#[test]
fn metadata_flag_is_set_in_every_format() {
    let mut all = [
        ConversionSettings::JPEG(true, 90),
        ConversionSettings::PNG(true, 75),
        ConversionSettings::TIFF(true, TIFFCompression::Deflate),
        ConversionSettings::WebP(true, 80),
    ];
    for settings in all.iter_mut() {
        settings.set_preserve_metadata(false);
    }
    assert_eq!(
        all,
        [
            ConversionSettings::JPEG(false, 90),
            ConversionSettings::PNG(false, 75),
            ConversionSettings::TIFF(false, TIFFCompression::Deflate),
            ConversionSettings::WebP(false, 80),
        ]
    );
}

#[test]
fn level_is_held_to_its_range() {
    assert_eq!(MAX_LEVEL, 100);
    let mut jpeg = ConversionSettings::JPEG(true, 90);
    jpeg.set_level(100);
    assert_eq!(jpeg, ConversionSettings::JPEG(true, 100));
    jpeg.set_level(101);
    assert_eq!(jpeg, ConversionSettings::JPEG(true, 100));
    jpeg.set_level(0);
    assert_eq!(jpeg, ConversionSettings::JPEG(true, 0));
    let mut png = ConversionSettings::PNG(false, 75);
    png.set_level(255);
    assert_eq!(png, ConversionSettings::PNG(false, 100));
    let mut webp = ConversionSettings::WebP(true, 80);
    webp.set_level(99);
    assert_eq!(webp, ConversionSettings::WebP(true, 99));
    let mut tiff = ConversionSettings::TIFF(true, TIFFCompression::LZW);
    tiff.set_level(5);
    assert_eq!(tiff, ConversionSettings::TIFF(true, TIFFCompression::LZW));
}

#[test]
fn tiff_compression_is_set_for_tiff_only() {
    let mut tiff = ConversionSettings::TIFF(true, TIFFCompression::Uncompressed);
    tiff.set_tiff_compression(TIFFCompression::Deflate);
    assert_eq!(tiff, ConversionSettings::TIFF(true, TIFFCompression::Deflate));
    let mut png = ConversionSettings::PNG(true, 3);
    png.set_tiff_compression(TIFFCompression::Deflate);
    assert_eq!(png, ConversionSettings::PNG(true, 3));
}

#[test]
fn extensions() {
    assert_eq!(file_extension_for_format(&ConversionSettings::JPEG(true, 90)), "jpg");
    assert_eq!(file_extension_for_format(&ConversionSettings::PNG(true, 75)), "png");
    assert_eq!(
        file_extension_for_format(&ConversionSettings::TIFF(true, TIFFCompression::Uncompressed)),
        "tiff"
    );
    assert_eq!(file_extension_for_format(&ConversionSettings::WebP(true, 80)), "webp");
}
