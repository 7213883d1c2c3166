use image::{DynamicImage, GenericImageView, ImageOutputFormat, Rgb, RgbImage};
use picture_upload::error::UploadError;
use picture_upload::hasher::hash;
use picture_upload::image_process::{process, render};
use picture_upload::metadata::{get_exif_orientation, read_orientation_code};
use picture_upload::variant::Variant;
use std::io::Cursor;

fn shaded(width: u32, height: u32) -> DynamicImage {
    DynamicImage::ImageRgb8(RgbImage::from_fn(width, height, |x, y| {
        Rgb([(x * 5) as u8, (y * 9) as u8, 90])
    }))
}

fn encoded(picture: &DynamicImage, format: ImageOutputFormat) -> Vec<u8> {
    let mut file = Cursor::new(Vec::new());
    picture.write_to(&mut file, format).unwrap();
    file.into_inner()
}

fn png(picture: &DynamicImage) -> Vec<u8> {
    encoded(picture, ImageOutputFormat::Png)
}

fn tiff_with_entry(tag: u16, kind: u16, value: [u8; 4]) -> Vec<u8> {
    let mut tiff = b"II*\0".to_vec();
    tiff.extend_from_slice(&8u32.to_le_bytes());
    tiff.extend_from_slice(&1u16.to_le_bytes());
    tiff.extend_from_slice(&tag.to_le_bytes());
    tiff.extend_from_slice(&kind.to_le_bytes());
    tiff.extend_from_slice(&1u32.to_le_bytes());
    tiff.extend_from_slice(&value);
    tiff.extend_from_slice(&0u32.to_le_bytes());
    tiff
}

fn orientation_tiff(code: u16) -> Vec<u8> {
    let low = code.to_le_bytes();
    tiff_with_entry(0x0112, 3, [low[0], low[1], 0, 0])
}

fn jpeg_with_metadata(picture: &DynamicImage, tiff: &[u8]) -> Vec<u8> {
    let jpeg = encoded(picture, ImageOutputFormat::Jpeg(90));
    let mut segment = b"Exif\0\0".to_vec();
    segment.extend_from_slice(tiff);
    let mut file = vec![0xff, 0xd8, 0xff, 0xe1];
    file.extend_from_slice(&((segment.len() + 2) as u16).to_be_bytes());
    file.extend_from_slice(&segment);
    file.extend_from_slice(&jpeg[2..]);
    file
}

fn jpeg_with_orientation(picture: &DynamicImage, code: u16) -> Vec<u8> {
    jpeg_with_metadata(picture, &orientation_tiff(code))
}

fn size_of(file: &[u8]) -> (u32, u32) {
    assert_eq!(image::guess_format(file).unwrap(), image::ImageFormat::Jpeg);
    image::load_from_memory(file).unwrap().dimensions()
}

#[test]
fn orientation_entry_is_read_from_attributes() {
    let attributes = exif::Reader::new().read_raw(orientation_tiff(6)).unwrap();
    assert_eq!(get_exif_orientation(attributes), 6);
    let attributes = exif::Reader::new().read_raw(orientation_tiff(9)).unwrap();
    assert_eq!(get_exif_orientation(attributes), 9);
}

#[test]
fn orientation_entry_of_any_unsigned_type_is_read() {
    let byte = exif::Reader::new().read_raw(tiff_with_entry(0x0112, 1, [3, 0, 0, 0])).unwrap();
    assert_eq!(get_exif_orientation(byte), 3);
    let long = exif::Reader::new().read_raw(tiff_with_entry(0x0112, 4, [8, 0, 0, 0])).unwrap();
    assert_eq!(get_exif_orientation(long), 8);
}

#[test]
fn attributes_without_orientation_ask_for_identity() {
    let attributes = exif::Reader::new().read_raw(tiff_with_entry(0x0100, 3, [40, 0, 0, 0])).unwrap();
    assert_eq!(get_exif_orientation(attributes), 1);
}

#[test]
fn orientation_that_is_no_unsigned_integer_asks_for_identity() {
    let attributes = exif::Reader::new().read_raw(tiff_with_entry(0x0112, 2, [b'6', 0, 0, 0])).unwrap();
    assert_eq!(get_exif_orientation(attributes), 1);
    let attributes = exif::Reader::new().read_raw(tiff_with_entry(0x0112, 8, [6, 0, 0, 0])).unwrap();
    assert_eq!(get_exif_orientation(attributes), 1);
}

#[test]
fn orientation_code_is_read_from_a_file() {
    let picture = shaded(8, 4);
    assert_eq!(read_orientation_code(&jpeg_with_orientation(&picture, 3)), 3);
    assert_eq!(read_orientation_code(&jpeg_with_orientation(&picture, 8)), 8);
    assert_eq!(read_orientation_code(&jpeg_with_orientation(&picture, 0)), 0);
    assert_eq!(read_orientation_code(&jpeg_with_orientation(&picture, 9)), 9);
}

#[test]
fn file_without_metadata_asks_for_identity() {
    let picture = shaded(8, 4);
    assert_eq!(read_orientation_code(&png(&picture)), 1);
    assert_eq!(read_orientation_code(&encoded(&picture, ImageOutputFormat::Jpeg(90))), 1);
    assert_eq!(read_orientation_code(b"no picture at all"), 1);
    assert_eq!(read_orientation_code(&[]), 1);
}

#[test]
fn small_picture_keeps_its_size_in_both_renditions() {
    let file = png(&shaded(40, 20));
    let (main, thumbnail, print) = process(file.clone()).unwrap();
    assert_eq!(size_of(&main), (40, 20));
    assert_eq!(size_of(&thumbnail), (40, 20));
    assert_eq!(print, hash(&file));
    assert_eq!(print, (seahash::hash(&file) & 0x7fff_ffff) as i32);
}

#[test]
fn wide_picture_is_scaled_into_each_box() {
    let file = png(&shaded(1930, 4));
    let (main, thumbnail, _) = process(file).unwrap();
    assert_eq!(size_of(&main), (1920, 4));
    assert_eq!(size_of(&thumbnail), (864, 2));
}

#[test]
fn high_picture_is_scaled_into_each_box() {
    let file = png(&shaded(4, 1100));
    let (main, thumbnail, _) = process(file).unwrap();
    assert_eq!(size_of(&main), (4, 1080));
    assert_eq!(size_of(&thumbnail), (2, 486));
}

#[test]
fn picture_between_the_boxes_is_scaled_for_the_thumbnail_only() {
    let file = png(&shaded(900, 6));
    let (main, thumbnail, _) = process(file).unwrap();
    assert_eq!(size_of(&main), (900, 6));
    assert_eq!(size_of(&thumbnail), (864, 6));
}

#[test]
fn quarter_turn_in_metadata_exchanges_the_sides() {
    let picture = shaded(40, 20);
    for code in [5, 6, 7, 8] {
        let (main, thumbnail, _) = process(jpeg_with_orientation(&picture, code)).unwrap();
        assert_eq!(size_of(&main), (20, 40));
        assert_eq!(size_of(&thumbnail), (20, 40));
    }
    for code in [1, 2, 3, 4] {
        let (main, thumbnail, _) = process(jpeg_with_orientation(&picture, code)).unwrap();
        assert_eq!(size_of(&main), (40, 20));
        assert_eq!(size_of(&thumbnail), (40, 20));
    }
}

#[test]
fn sides_are_exchanged_before_the_picture_is_fitted() {
    let file = jpeg_with_orientation(&shaded(1100, 8), 6);
    let (main, thumbnail, _) = process(file).unwrap();
    assert_eq!(size_of(&main), (8, 1080));
    assert_eq!(size_of(&thumbnail), (4, 486));
}

#[test]
fn vertical_flip_in_metadata_turns_the_picture_over() {
    let mut stripes = RgbImage::from_pixel(16, 16, Rgb([250, 250, 250]));
    for y in 8..16 {
        for x in 0..16 {
            stripes.put_pixel(x, y, Rgb([5, 5, 5]));
        }
    }
    let picture = DynamicImage::ImageRgb8(stripes);
    let (main, _, _) = process(jpeg_with_orientation(&picture, 2)).unwrap();
    let shown = image::load_from_memory(&main).unwrap().to_rgb8();
    assert!(shown.get_pixel(8, 1).0[0] < 60);
    assert!(shown.get_pixel(8, 14).0[0] > 190);
    let (main, _, _) = process(jpeg_with_orientation(&picture, 1)).unwrap();
    let shown = image::load_from_memory(&main).unwrap().to_rgb8();
    assert!(shown.get_pixel(8, 1).0[0] > 190);
    assert!(shown.get_pixel(8, 14).0[0] < 60);
}

#[test]
fn orientation_nine_is_refused() {
    let file = jpeg_with_orientation(&shaded(8, 4), 9);
    assert_eq!(process(file), Err(UploadError::InvalidOrientation));
}

#[test]
fn orientation_zero_is_refused() {
    let file = jpeg_with_orientation(&shaded(8, 4), 0);
    assert_eq!(process(file), Err(UploadError::InvalidOrientation));
}

#[test]
fn bytes_that_are_no_picture_fail_to_decode() {
    assert_eq!(process(b"certainly not a picture".to_vec()), Err(UploadError::DecodeFailure));
    assert_eq!(process(vec![]), Err(UploadError::DecodeFailure));
    assert_eq!(process(vec![0; 100]), Err(UploadError::DecodeFailure));
}

#[test]
fn cut_off_picture_fails_to_decode() {
    let mut file = png(&shaded(40, 20));
    file.truncate(40);
    assert_eq!(process(file), Err(UploadError::DecodeFailure));
}

#[test]
fn decoding_is_tried_before_orientation() {
    let mut file = jpeg_with_orientation(&shaded(8, 4), 9);
    file.truncate(60);
    assert_eq!(process(file), Err(UploadError::DecodeFailure));
}

#[test]
fn picture_of_sixteen_bit_colours_fails_to_encode() {
    let deep = DynamicImage::ImageRgb16(image::ImageBuffer::from_pixel(
        4,
        4,
        Rgb([1000u16, 2000, 3000]),
    ));
    assert_eq!(process(png(&deep)), Err(UploadError::EncodeFailure));
    assert_eq!(render(&deep, Variant::Main), Err(UploadError::EncodeFailure));
}

#[test]
fn rendition_is_a_jpeg_of_the_fitted_size() {
    let picture = shaded(2000, 10);
    let main = render(&picture, Variant::Main).unwrap();
    assert_eq!(&main[0..2], &[0xff, 0xd8]);
    assert_eq!(size_of(&main), (1920, 10));
    let thumbnail = render(&picture, Variant::Thumbnail).unwrap();
    assert_eq!(size_of(&thumbnail), (864, 4));
}

#[test]
fn rendition_of_a_fitting_picture_is_its_encoding() {
    let picture = shaded(30, 10);
    let main = render(&picture, Variant::Main).unwrap();
    assert_eq!(main, encoded(&picture, ImageOutputFormat::Jpeg(95)));
}

#[test]
fn fingerprint_is_that_of_the_uploaded_bytes() {
    let picture = shaded(12, 12);
    let plain = png(&picture);
    let turned = jpeg_with_orientation(&picture, 6);
    assert_eq!(process(plain.clone()).unwrap().2, hash(&plain));
    assert_eq!(process(turned.clone()).unwrap().2, hash(&turned));
    assert_eq!(process(plain.clone()).unwrap(), process(plain).unwrap());
}
