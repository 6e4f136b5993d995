use image_intake::error::UploadError;
use image_intake::format::ImageKind;
use image_intake::preview::accept_decoded;
use image_intake::preview::decode;
use image_intake::preview::encode;
use image_intake::preview::generate_preview;
use image_intake::preview::preview_geometry;
use image_intake::preview::render_preview;
use image_intake::preview::scale_to_preview;
use image_intake::preview::Raster;
use image_intake::preview::PREVIEW_WIDTH;
use std::io::Cursor;

fn sample(width: u32, height: u32, format: image::ImageOutputFormat) -> Vec<u8> {
    let picture = image::RgbImage::from_fn(width, height, |x, y| {
        image::Rgb([(x % 256) as u8, (y % 256) as u8, ((x + y) % 256) as u8])
    });
    let mut sink = Cursor::new(Vec::new());
    picture.write_to(&mut sink, format).unwrap();
    sink.into_inner()
}

fn png(width: u32, height: u32) -> Vec<u8> {
    sample(width, height, image::ImageOutputFormat::Png)
}

fn jpeg(width: u32, height: u32) -> Vec<u8> {
    sample(width, height, image::ImageOutputFormat::Jpeg(90))
}

fn size_of(bytes: &[u8], format: image::ImageFormat) -> (u32, u32) {
    let picture = image::load_from_memory_with_format(bytes, format).unwrap();
    (picture.width(), picture.height())
}

#[test]
fn preview_width_is_fixed() {
    assert_eq!(PREVIEW_WIDTH, 240);
}

#[test]
fn geometry_keeps_the_aspect_ratio() {
    assert_eq!(preview_geometry(800, 600), Some((240, 180)));
    assert_eq!(preview_geometry(240, 100), Some((240, 100)));
    assert_eq!(preview_geometry(3, 2), Some((240, 160)));
    assert_eq!(preview_geometry(1920, 1080), Some((240, 135)));
    assert_eq!(preview_geometry(1, 1), Some((240, 240)));
}

#[test]
fn geometry_rounds_to_the_nearest_row() {
    assert_eq!(preview_geometry(7, 5), Some((240, 171)));
    assert_eq!(preview_geometry(7, 3), Some((240, 103)));
    assert_eq!(preview_geometry(480, 1), Some((240, 1)));
    assert_eq!(preview_geometry(480, 3), Some((240, 2)));
    assert_eq!(preview_geometry(481, 1), None);
}

#[test]
fn geometry_refuses_images_without_pixels() {
    assert_eq!(preview_geometry(0, 10), None);
    assert_eq!(preview_geometry(10, 0), None);
    assert_eq!(preview_geometry(0, 0), None);
}

#[test]
fn geometry_refuses_a_preview_without_rows() {
    assert_eq!(preview_geometry(1000, 1), None);
    assert_eq!(preview_geometry(u32::MAX, 1), None);
}

#[test]
fn geometry_refuses_a_preview_too_high_to_count() {
    assert_eq!(preview_geometry(1, u32::MAX), None);
    assert_eq!(preview_geometry(1, 17_895_698), None);
    assert_eq!(preview_geometry(240, u32::MAX).map(|size| size.0), Some(240));
}

#[test]
fn raster_needs_four_bytes_a_pixel() {
    assert!(Raster::new(2, 3, vec![0; 24]).is_some());
    assert!(Raster::new(2, 3, vec![0; 23]).is_none());
    assert!(Raster::new(2, 3, vec![0; 25]).is_none());
    assert!(Raster::new(0, 3, vec![]).is_some());
    let raster = Raster::new(2, 1, vec![1, 2, 3, 4, 5, 6, 7, 8]).unwrap();
    assert_eq!(raster.width(), 2);
    assert_eq!(raster.height(), 1);
    assert_eq!(raster.pixels(), &[1, 2, 3, 4, 5, 6, 7, 8]);
}

#[test]
fn decode_reads_the_declared_codec() {
    let raster = decode(&png(5, 4), ImageKind::Png).unwrap();
    assert_eq!((raster.width(), raster.height()), (5, 4));
    assert_eq!(raster.pixels().len(), 80);
    assert_eq!(&raster.pixels()[..8], &[0, 0, 0, 255, 1, 0, 1, 255]);
    let raster = decode(&jpeg(16, 8), ImageKind::Jpeg).unwrap();
    assert_eq!((raster.width(), raster.height()), (16, 8));
}

#[test]
fn decode_does_not_guess_the_codec() {
    assert_eq!(decode(&png(5, 4), ImageKind::Jpeg), Err(UploadError::DecodeFailure));
    assert_eq!(decode(&jpeg(5, 4), ImageKind::Png), Err(UploadError::DecodeFailure));
}

#[test]
fn decode_refuses_corrupt_bytes() {
    assert_eq!(decode(b"", ImageKind::Png), Err(UploadError::DecodeFailure));
    assert_eq!(decode(b"not an image", ImageKind::Png), Err(UploadError::DecodeFailure));
    let mut cut = png(40, 30);
    cut.truncate(cut.len() / 2);
    assert_eq!(decode(&cut, ImageKind::Png), Err(UploadError::DecodeFailure));
}

#[test]
fn encode_writes_the_codec_asked_for() {
    let raster = Raster::new(3, 2, vec![200; 24]).unwrap();
    let bytes = encode(&raster, ImageKind::Png).unwrap();
    assert_eq!(&bytes[..8], b"\x89PNG\r\n\x1a\n");
    assert_eq!(size_of(&bytes, image::ImageFormat::Png), (3, 2));
    let bytes = encode(&raster, ImageKind::Jpeg).unwrap();
    assert_eq!(&bytes[..3], &[0xff, 0xd8, 0xff]);
    assert_eq!(size_of(&bytes, image::ImageFormat::Jpeg), (3, 2));
}

#[test]
fn encode_is_a_function_of_the_image() {
    let raster = Raster::new(3, 2, vec![90; 24]).unwrap();
    assert_eq!(encode(&raster, ImageKind::Png), encode(&raster, ImageKind::Png));
    assert_eq!(encode(&raster, ImageKind::Jpeg), encode(&raster, ImageKind::Jpeg));
}

#[test]
fn encode_then_decode_keeps_png_pixels() {
    let pixels: Vec<u8> = (0..96).map(|i| (i * 5) as u8).collect();
    let raster = Raster::new(4, 6, pixels.clone()).unwrap();
    let bytes = encode(&raster, ImageKind::Png).unwrap();
    let back = decode(&bytes, ImageKind::Png).unwrap();
    assert_eq!(back, raster);
}

#[test]
fn encode_fails_where_the_codec_cannot_hold_the_image() {
    let empty = Raster::new(0, 0, vec![]).unwrap();
    assert_eq!(encode(&empty, ImageKind::Png), Err(UploadError::StorageFailure));
    let tall = Raster::new(1, 65_536, vec![0; 4 * 65_536]).unwrap();
    assert_eq!(encode(&tall, ImageKind::Jpeg), Err(UploadError::StorageFailure));
}

#[test]
fn scaling_gives_the_preview_size() {
    let source = decode(&png(800, 600), ImageKind::Png).unwrap();
    let scaled = scale_to_preview(&source).unwrap();
    assert_eq!((scaled.width(), scaled.height()), (240, 180));
    assert_eq!(scaled.pixels().len(), 4 * 240 * 180);
    assert_ne!(scaled, source);
}

#[test]
fn scaling_enlarges_small_images() {
    let source = Raster::new(2, 1, vec![255, 0, 0, 255, 0, 0, 255, 255]).unwrap();
    let scaled = scale_to_preview(&source).unwrap();
    assert_eq!((scaled.width(), scaled.height()), (240, 120));
}

#[test]
fn scaling_refuses_degenerate_images() {
    assert_eq!(scale_to_preview(&Raster::new(0, 0, vec![]).unwrap()), None);
    assert_eq!(scale_to_preview(&Raster::new(1000, 1, vec![0; 4000]).unwrap()), None);
}

#[test]
fn render_previews_a_decoded_image() {
    let source = decode(&png(100, 50), ImageKind::Png).unwrap();
    let bytes = render_preview(&source, ImageKind::Png).unwrap();
    assert_eq!(size_of(&bytes, image::ImageFormat::Png), (240, 120));
    let flat = Raster::new(1000, 1, vec![0; 4000]).unwrap();
    assert_eq!(render_preview(&flat, ImageKind::Png), Err(UploadError::DecodeFailure));
}

#[test]
fn preview_of_a_jpeg_is_a_jpeg() {
    let bytes = generate_preview(&jpeg(800, 600), ImageKind::Jpeg).unwrap();
    assert_eq!(&bytes[..3], &[0xff, 0xd8, 0xff]);
    assert_eq!(size_of(&bytes, image::ImageFormat::Jpeg), (240, 180));
}

#[test]
fn preview_of_a_png_is_a_png() {
    let bytes = generate_preview(&png(640, 480), ImageKind::Png).unwrap();
    assert_eq!(&bytes[..8], b"\x89PNG\r\n\x1a\n");
    assert_eq!(size_of(&bytes, image::ImageFormat::Png), (240, 180));
}

#[test]
fn preview_height_stays_within_a_pixel() {
    for (width, height) in [(333u32, 777u32), (1024, 3), (17, 31), (500, 499)] {
        let bytes = generate_preview(&png(width, height), ImageKind::Png).unwrap();
        let (w, h) = size_of(&bytes, image::ImageFormat::Png);
        assert_eq!(w, 240);
        let exact = 240.0f64 / width as f64 * height as f64;
        assert!((h as f64 - exact).abs() <= 1.0);
    }
}

#[test]
fn preview_of_corrupt_bytes_is_a_decode_failure() {
    assert_eq!(generate_preview(b"\x89PNG\r\n\x1a\nrubbish", ImageKind::Png), Err(UploadError::DecodeFailure));
    assert_eq!(generate_preview(&png(8, 8), ImageKind::Jpeg), Err(UploadError::DecodeFailure));
}

#[test]
fn a_decoded_image_with_pixels_is_taken() {
    let pixels: Vec<u8> = (0..24).collect();
    let raster = accept_decoded(3, 2, pixels.clone()).unwrap();
    assert_eq!((raster.width(), raster.height()), (3, 2));
    assert_eq!(raster.pixels(), &pixels[..]);
}

#[test]
fn a_decoded_image_without_pixels_is_a_decode_failure() {
    assert_eq!(accept_decoded(0, 0, vec![]), Err(UploadError::DecodeFailure));
    assert_eq!(accept_decoded(0, 7, vec![]), Err(UploadError::DecodeFailure));
    assert_eq!(accept_decoded(7, 0, vec![]), Err(UploadError::DecodeFailure));
}

#[test]
fn a_decoded_image_of_the_wrong_length_is_a_decode_failure() {
    assert_eq!(accept_decoded(3, 2, vec![0; 23]), Err(UploadError::DecodeFailure));
    assert_eq!(accept_decoded(3, 2, vec![0; 25]), Err(UploadError::DecodeFailure));
    assert_eq!(accept_decoded(3, 2, vec![]), Err(UploadError::DecodeFailure));
}

#[test]
fn decode_converts_gray_to_four_channels() {
    let gray = image::GrayImage::from_fn(3, 2, |x, y| image::Luma([(10 * x + y) as u8]));
    let mut sink = Cursor::new(Vec::new());
    gray.write_to(&mut sink, image::ImageOutputFormat::Png).unwrap();
    let raster = decode(&sink.into_inner(), ImageKind::Png).unwrap();
    assert_eq!((raster.width(), raster.height()), (3, 2));
    assert_eq!(
        raster.pixels(),
        &[0, 0, 0, 255, 10, 10, 10, 255, 20, 20, 20, 255, 1, 1, 1, 255, 11, 11, 11, 255, 21, 21, 21, 255]
    );
}

#[test]
fn a_wide_image_without_rows_cannot_be_encoded() {
    if let Some(wide) = Raster::new(0x4000_0000, 0, Vec::new()) {
        assert_eq!((wide.width(), wide.height()), (0x4000_0000, 0));
        assert_eq!(encode(&wide, ImageKind::Png), Err(UploadError::StorageFailure));
        assert_eq!(encode(&wide, ImageKind::Jpeg), Err(UploadError::StorageFailure));
    } else {
        assert!(usize::BITS < 64);
    }
}

#[test]
fn raster_of_no_rows_needs_no_bytes() {
    assert!(Raster::new(5, 0, vec![]).is_some());
    assert!(Raster::new(5, 0, vec![0]).is_none());
    assert!(Raster::new(u32::MAX, 0, vec![]).is_some() || usize::BITS < 64);
}
