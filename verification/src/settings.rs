//! The settings of a conversion: the target format with its own quality or
//! compression parameter.

use vstd::prelude::*;

verus! {

/// The greatest quality or compression level.
pub const MAX_LEVEL: u8 = 100;

/// How a TIFF file is compressed.
#[derive(Clone, Copy, Debug, PartialEq, Eq, Structural)]
pub enum TIFFCompression {
    Uncompressed,
    LZW,
    Deflate,
}

/// The target formats.
#[derive(Clone, Copy, Debug, PartialEq, Eq, Structural)]
pub enum ConversionSettingsDiscriminants {
    JPEG,
    PNG,
    TIFF,
    WebP,
}

/// The settings of one target format. In each variant the first field says
/// whether metadata is to be preserved, the second is the format's own
/// parameter: a quality for JPEG and WebP, a compression level for PNG, the
/// kind of compression for TIFF.
#[derive(Clone, Copy, Debug, PartialEq, Eq, Structural)]
pub enum ConversionSettings {
    JPEG(bool, u8),
    PNG(bool, u8),
    TIFF(bool, TIFFCompression),
    WebP(bool, u8),
}

/// `level`, held to the range up to [`MAX_LEVEL`].
pub open spec fn clamped(level: u8) -> u8 {
    if level > MAX_LEVEL {
        MAX_LEVEL
    } else {
        level
    }
}

/// The settings a format starts with.
pub open spec fn default_settings(variant: ConversionSettingsDiscriminants) -> ConversionSettings {
    match variant {
        ConversionSettingsDiscriminants::JPEG => ConversionSettings::JPEG(true, 90),
        ConversionSettingsDiscriminants::PNG => ConversionSettings::PNG(true, 75),
        ConversionSettingsDiscriminants::TIFF => ConversionSettings::TIFF(
            true,
            TIFFCompression::Uncompressed,
        ),
        ConversionSettingsDiscriminants::WebP => ConversionSettings::WebP(true, 80),
    }
}

/// The file extension of a format, without the dot.
pub open spec fn extension_of(variant: ConversionSettingsDiscriminants) -> Seq<char> {
    match variant {
        ConversionSettingsDiscriminants::JPEG => seq!['j', 'p', 'g'],
        ConversionSettingsDiscriminants::PNG => seq!['p', 'n', 'g'],
        ConversionSettingsDiscriminants::TIFF => seq!['t', 'i', 'f', 'f'],
        ConversionSettingsDiscriminants::WebP => seq!['w', 'e', 'b', 'p'],
    }
}

impl ConversionSettings {
    /// The format that the settings are for.
    pub open spec fn variant_of(self) -> ConversionSettingsDiscriminants {
        match self {
            ConversionSettings::JPEG(_, _) => ConversionSettingsDiscriminants::JPEG,
            ConversionSettings::PNG(_, _) => ConversionSettingsDiscriminants::PNG,
            ConversionSettings::TIFF(_, _) => ConversionSettingsDiscriminants::TIFF,
            ConversionSettings::WebP(_, _) => ConversionSettingsDiscriminants::WebP,
        }
    }

    /// Whether metadata is to be preserved.
    pub open spec fn metadata_of(self) -> bool {
        match self {
            ConversionSettings::JPEG(metadata, _) => metadata,
            ConversionSettings::PNG(metadata, _) => metadata,
            ConversionSettings::TIFF(metadata, _) => metadata,
            ConversionSettings::WebP(metadata, _) => metadata,
        }
    }

    /// A quality or compression level is within its range.
    pub open spec fn wf(self) -> bool {
        match self {
            ConversionSettings::JPEG(_, quality) => quality <= MAX_LEVEL,
            ConversionSettings::PNG(_, level) => level <= MAX_LEVEL,
            ConversionSettings::TIFF(_, _) => true,
            ConversionSettings::WebP(_, quality) => quality <= MAX_LEVEL,
        }
    }

    /// The settings with the metadata flag set to `checked`.
    pub open spec fn with_metadata(self, checked: bool) -> ConversionSettings {
        match self {
            ConversionSettings::JPEG(_, quality) => ConversionSettings::JPEG(checked, quality),
            ConversionSettings::PNG(_, level) => ConversionSettings::PNG(checked, level),
            ConversionSettings::TIFF(_, compression) => ConversionSettings::TIFF(
                checked,
                compression,
            ),
            ConversionSettings::WebP(_, quality) => ConversionSettings::WebP(checked, quality),
        }
    }

    /// The settings with the quality or compression level set to `level`,
    /// held to its range. TIFF has no level and stays as it is.
    pub open spec fn with_level(self, level: u8) -> ConversionSettings {
        match self {
            ConversionSettings::JPEG(metadata, _) => ConversionSettings::JPEG(
                metadata,
                clamped(level),
            ),
            ConversionSettings::PNG(metadata, _) => ConversionSettings::PNG(
                metadata,
                clamped(level),
            ),
            ConversionSettings::TIFF(metadata, compression) => ConversionSettings::TIFF(
                metadata,
                compression,
            ),
            ConversionSettings::WebP(metadata, _) => ConversionSettings::WebP(
                metadata,
                clamped(level),
            ),
        }
    }

    /// The settings with the kind of TIFF compression set. The other
    /// formats have none and stay as they are.
    pub open spec fn with_tiff_compression(self, compression: TIFFCompression) -> ConversionSettings {
        match self {
            ConversionSettings::TIFF(metadata, _) => ConversionSettings::TIFF(
                metadata,
                compression,
            ),
            other => other,
        }
    }

    /// The settings that `variant` starts with: metadata preserved, JPEG at
    /// quality 90, PNG at level 75, TIFF uncompressed, WebP at quality 80.
    pub fn new(variant: ConversionSettingsDiscriminants) -> (settings: ConversionSettings)
        ensures
            settings == default_settings(variant),
            settings.variant_of() == variant,
            settings.wf(),
    {
        match variant {
            ConversionSettingsDiscriminants::JPEG => ConversionSettings::JPEG(true, 90),
            ConversionSettingsDiscriminants::PNG => ConversionSettings::PNG(true, 75),
            ConversionSettingsDiscriminants::TIFF => ConversionSettings::TIFF(
                true,
                TIFFCompression::Uncompressed,
            ),
            ConversionSettingsDiscriminants::WebP => ConversionSettings::WebP(true, 80),
        }
    }

    /// The format that the settings are for.
    pub fn variant(&self) -> (variant: ConversionSettingsDiscriminants)
        ensures
            variant == self.variant_of(),
    {
        match self {
            ConversionSettings::JPEG(_, _) => ConversionSettingsDiscriminants::JPEG,
            ConversionSettings::PNG(_, _) => ConversionSettingsDiscriminants::PNG,
            ConversionSettings::TIFF(_, _) => ConversionSettingsDiscriminants::TIFF,
            ConversionSettings::WebP(_, _) => ConversionSettingsDiscriminants::WebP,
        }
    }

    /// Whether metadata is to be preserved.
    pub fn preserve_metadata(&self) -> (metadata: bool)
        ensures
            metadata == self.metadata_of(),
    {
        match self {
            ConversionSettings::JPEG(metadata, _) => *metadata,
            ConversionSettings::PNG(metadata, _) => *metadata,
            ConversionSettings::TIFF(metadata, _) => *metadata,
            ConversionSettings::WebP(metadata, _) => *metadata,
        }
    }

    /// Sets the metadata flag and leaves the rest as it is.
    pub fn set_preserve_metadata(&mut self, checked: bool)
        ensures
            *final(self) == old(self).with_metadata(checked),
            old(self).wf() ==> final(self).wf(),
    {
        match self {
            ConversionSettings::JPEG(metadata, _) => *metadata = checked,
            ConversionSettings::PNG(metadata, _) => *metadata = checked,
            ConversionSettings::TIFF(metadata, _) => *metadata = checked,
            ConversionSettings::WebP(metadata, _) => *metadata = checked,
        }
    }

    /// Sets the quality or compression level, held to its range.
    pub fn set_level(&mut self, level: u8)
        ensures
            *final(self) == old(self).with_level(level),
            final(self).wf(),
    {
        let level = if level > MAX_LEVEL {
            MAX_LEVEL
        } else {
            level
        };
        match self {
            ConversionSettings::JPEG(_, quality) => *quality = level,
            ConversionSettings::PNG(_, compression) => *compression = level,
            ConversionSettings::WebP(_, quality) => *quality = level,
            ConversionSettings::TIFF(_, _) => {},
        }
    }

    /// Sets the kind of TIFF compression.
    pub fn set_tiff_compression(&mut self, compression: TIFFCompression)
        ensures
            *final(self) == old(self).with_tiff_compression(compression),
            old(self).wf() ==> final(self).wf(),
    {
        match self {
            ConversionSettings::TIFF(_, current) => *current = compression,
            _ => {},
        }
    }
}

/// The extension of the files that are written for `format`: `jpg`, `png`,
/// `tiff` or `webp`.
pub fn file_extension_for_format(format: &ConversionSettings) -> (extension: &'static str)
    ensures
        extension@ == extension_of(format.variant_of()),
{
    proof {
        reveal_strlit("jpg");
        reveal_strlit("png");
        reveal_strlit("tiff");
        reveal_strlit("webp");
    }
    let extension = match format {
        ConversionSettings::JPEG(_, _) => "jpg",
        ConversionSettings::PNG(_, _) => "png",
        ConversionSettings::TIFF(_, _) => "tiff",
        ConversionSettings::WebP(_, _) => "webp",
    };
    assert(extension@ =~= extension_of(format.variant_of()));
    extension
}

} // verus!
