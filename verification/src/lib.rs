//! Batch conversion of HEIC images into JPEG, PNG, TIFF or WebP: the codec
//! dispatcher, the batch status state machine, the list of source images and
//! the pixel extraction of the thumbnail pipeline.

pub mod codec;
pub mod decode;
pub mod failures;
pub mod images;
pub mod naming;
pub mod progress;
pub mod raster;
pub mod settings;
pub mod thumbnail;
pub mod to_jpeg;
pub mod to_png;
pub mod to_tiff;
pub mod to_webp;
