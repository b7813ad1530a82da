use unheic::decode::{decode_source, raster_from_decoder};
use unheic::raster::RgbaImage;
use unheic::settings::ConversionSettings;
use unheic::thumbnail::{extract_rgba, thumbnail_size, PlaneError, THUMBNAIL_HEIGHT};
use unheic::to_png::convert_to_png;

#[test]
fn thumbnail_is_500_high_and_keeps_the_aspect_ratio() {
    assert_eq!(THUMBNAIL_HEIGHT, 500);
    assert_eq!(thumbnail_size(4032, 3024), Some((666, 500)));
    assert_eq!(thumbnail_size(3024, 4032), Some((375, 500)));
    assert_eq!(thumbnail_size(500, 500), Some((500, 500)));
    assert_eq!(thumbnail_size(1, 1), Some((500, 500)));
    assert_eq!(thumbnail_size(1000, 250), Some((2000, 500)));
    assert_eq!(thumbnail_size(1, 1000), Some((0, 500)));
    assert_eq!(thumbnail_size(0, 10), Some((0, 500)));
    assert_eq!(thumbnail_size(7, 3), Some((1166, 500)));
}

#[test]
fn thumbnail_of_an_image_without_rows() {
    assert_eq!(thumbnail_size(100, 0), None);
    assert_eq!(thumbnail_size(0, 0), None);
}

#[test]
fn thumbnail_width_is_held_to_u32() {
    assert_eq!(thumbnail_size(u32::MAX, 1), Some((u32::MAX, 500)));
    assert_eq!(thumbnail_size(u32::MAX, 500), Some((u32::MAX, 500)));
    assert_eq!(thumbnail_size(u32::MAX, 1000), Some((2147483647, 500)));
}

#[test]
fn extraction_skips_the_padding_of_each_row() {
    // two pixels per row, three rows, rows 11 bytes apart
    let mut plane = vec![0xEEu8; 11 * 2 + 8];
    for row in 0..3usize {
        for byte in 0..8usize {
            plane[row * 11 + byte] = (row * 8 + byte) as u8;
        }
    }
    let image = extract_rgba(&plane, 11, 2, 3).unwrap();
    assert_eq!(image.width(), 2);
    assert_eq!(image.height(), 3);
    assert_eq!(image.as_raw(), &(0..24u8).collect::<Vec<u8>>());
}

#[test]
fn extraction_of_packed_rows_is_a_copy() {
    let plane: Vec<u8> = (0..32u8).collect();
    let image = extract_rgba(&plane, 8, 2, 4).unwrap();
    assert_eq!(image.into_raw(), plane);
}

#[test]
fn extraction_indexes_by_row_times_stride_plus_column_times_four() {
    let stride = 20usize;
    let plane: Vec<u8> = (0..(stride * 3) as u32).map(|i| (i % 256) as u8).collect();
    let image = extract_rgba(&plane, stride, 3, 3).unwrap();
    let out = image.as_raw();
    for y in 0..3usize {
        for x in 0..3usize {
            for c in 0..4usize {
                assert_eq!(out[(y * 3 + x) * 4 + c], plane[y * stride + x * 4 + c]);
            }
        }
    }
}

#[test]
fn extraction_fails_on_a_short_plane_or_stride() {
    let plane = vec![0u8; 23];
    assert_eq!(extract_rgba(&plane, 8, 2, 3).unwrap_err(), PlaneError::PlaneTooSmall);
    assert_eq!(extract_rgba(&plane, 7, 2, 3).unwrap_err(), PlaneError::StrideTooSmall);
    assert_eq!(extract_rgba(&plane, 0, 1, 1).unwrap_err(), PlaneError::StrideTooSmall);
    assert_eq!(extract_rgba(&[], 4, 1, 1).unwrap_err(), PlaneError::PlaneTooSmall);
    assert!(extract_rgba(&plane, usize::MAX, 2, 3).is_err());
    assert!(!PlaneError::PlaneTooSmall.message().is_empty());
    assert_ne!(PlaneError::PlaneTooSmall.message(), PlaneError::StrideTooSmall.message());
}

#[test]
fn extraction_of_the_last_row_needs_no_padding_behind_it() {
    let plane = vec![7u8; 10 + 8];
    let image = extract_rgba(&plane, 10, 2, 2).unwrap();
    assert_eq!(image.as_raw().len(), 16);
    assert_eq!(extract_rgba(&plane[..17], 10, 2, 2).unwrap_err(), PlaneError::PlaneTooSmall);
}

#[test]
fn extraction_of_an_empty_image() {
    let image = extract_rgba(&[], 0, 0, 5).unwrap();
    assert_eq!((image.width(), image.height()), (0, 5));
    assert!(image.as_raw().is_empty());
    let image = extract_rgba(&[1, 2, 3], 1, 9, 0).unwrap();
    assert_eq!((image.width(), image.height()), (9, 0));
    assert!(image.into_raw().is_empty());
}

#[test]
fn raster_takes_exactly_the_bytes_of_its_size() {
    assert!(RgbaImage::from_raw(2, 2, vec![0; 16]).is_some());
    assert!(RgbaImage::from_raw(2, 2, vec![0; 15]).is_none());
    assert!(RgbaImage::from_raw(2, 2, vec![0; 17]).is_none());
    assert!(RgbaImage::from_raw(0, 7, Vec::new()).is_some());
    assert!(RgbaImage::from_raw(u32::MAX, u32::MAX, vec![0; 4]).is_none());
}

#[test]
fn decoder_results_are_checked() {
    let image = raster_from_decoder(Ok((1, 2, vec![1, 2, 3, 4, 5, 6, 7, 8]))).unwrap();
    assert_eq!((image.width(), image.height()), (1, 2));
    assert_eq!(image.as_raw(), &vec![1, 2, 3, 4, 5, 6, 7, 8]);
    assert_eq!(
        raster_from_decoder(Ok((1, 2, vec![1, 2, 3]))).unwrap_err(),
        "the decoded buffer does not match the size of the image"
    );
    assert_eq!(raster_from_decoder(Err("broken".to_string())).unwrap_err(), "broken");
}

#[test]
fn decoding_reads_what_the_png_encoder_wrote() {
    let pixels: Vec<u8> = vec![9, 8, 7, 255, 1, 2, 3, 128];
    let source = RgbaImage::from_raw(2, 1, pixels.clone()).unwrap();
    let file = convert_to_png(&source, &ConversionSettings::PNG(true, 30)).unwrap();
    let decoded = decode_source(&file).unwrap();
    assert_eq!((decoded.width(), decoded.height()), (2, 1));
    assert_eq!(decoded.into_raw(), pixels);
}

#[test]
fn decoding_of_bytes_that_are_no_image_fails() {
    assert!(decode_source(b"this is no image").is_err());
    assert!(decode_source(&[]).is_err());
}
