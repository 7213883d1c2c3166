use image::{DynamicImage, GenericImageView, Rgb, RgbImage};
use picture_upload::error::UploadError;
use picture_upload::image_process::orient;
use picture_upload::orientation::Orientation;

const ALL: [Orientation; 8] = [
    Orientation::Identity,
    Orientation::FlipVertical,
    Orientation::Rotate180,
    Orientation::FlipHorizontal,
    Orientation::Rotate90FlipVertical,
    Orientation::Rotate90,
    Orientation::Rotate270FlipHorizontal,
    Orientation::Rotate270,
];

fn numbered(width: u32, height: u32) -> DynamicImage {
    DynamicImage::ImageRgb8(RgbImage::from_fn(width, height, |x, y| Rgb([x as u8, y as u8, 200])))
}

fn same_pixels(one: &DynamicImage, other: &DynamicImage) -> bool {
    one.dimensions() == other.dimensions() && one.as_bytes() == other.as_bytes()
}

#[test]
fn codes_one_to_eight_are_read() {
    assert_eq!(Orientation::from_code(1), Ok(Orientation::Identity));
    assert_eq!(Orientation::from_code(2), Ok(Orientation::FlipVertical));
    assert_eq!(Orientation::from_code(3), Ok(Orientation::Rotate180));
    assert_eq!(Orientation::from_code(4), Ok(Orientation::FlipHorizontal));
    assert_eq!(Orientation::from_code(5), Ok(Orientation::Rotate90FlipVertical));
    assert_eq!(Orientation::from_code(6), Ok(Orientation::Rotate90));
    assert_eq!(Orientation::from_code(7), Ok(Orientation::Rotate270FlipHorizontal));
    assert_eq!(Orientation::from_code(8), Ok(Orientation::Rotate270));
}

#[test]
fn codes_outside_one_to_eight_are_refused() {
    assert_eq!(Orientation::from_code(0), Err(UploadError::InvalidOrientation));
    assert_eq!(Orientation::from_code(9), Err(UploadError::InvalidOrientation));
    assert_eq!(Orientation::from_code(u32::MAX), Err(UploadError::InvalidOrientation));
}

#[test]
fn code_of_each_orientation_reads_back() {
    for (index, orientation) in ALL.iter().enumerate() {
        assert_eq!(orientation.code(), index as u32 + 1);
        assert_eq!(Orientation::from_code(orientation.code()), Ok(*orientation));
    }
}

#[test]
fn inverses_pair_the_quarter_turns() {
    assert_eq!(Orientation::Rotate90.inverse(), Orientation::Rotate270);
    assert_eq!(Orientation::Rotate270.inverse(), Orientation::Rotate90);
    for orientation in ALL {
        assert_eq!(orientation.inverse().inverse(), orientation);
        if orientation != Orientation::Rotate90 && orientation != Orientation::Rotate270 {
            assert_eq!(orientation.inverse(), orientation);
        }
    }
}

#[test]
fn identity_keeps_the_picture() {
    let picture = numbered(3, 2);
    let upright = orient(picture.clone(), Orientation::Identity);
    assert!(same_pixels(&upright, &picture));
}

#[test]
fn vertical_flip_moves_rows() {
    let picture = numbered(3, 2);
    let flipped = orient(picture.clone(), Orientation::FlipVertical);
    assert_eq!(flipped.dimensions(), (3, 2));
    for y in 0..2 {
        for x in 0..3 {
            assert_eq!(flipped.get_pixel(x, 1 - y), picture.get_pixel(x, y));
        }
    }
}

#[test]
fn horizontal_flip_moves_columns() {
    let picture = numbered(3, 2);
    let flipped = orient(picture.clone(), Orientation::FlipHorizontal);
    assert_eq!(flipped.dimensions(), (3, 2));
    for y in 0..2 {
        for x in 0..3 {
            assert_eq!(flipped.get_pixel(2 - x, y), picture.get_pixel(x, y));
        }
    }
}

#[test]
fn half_turn_moves_both() {
    let picture = numbered(3, 2);
    let turned = orient(picture.clone(), Orientation::Rotate180);
    assert_eq!(turned.dimensions(), (3, 2));
    for y in 0..2 {
        for x in 0..3 {
            assert_eq!(turned.get_pixel(2 - x, 1 - y), picture.get_pixel(x, y));
        }
    }
}

#[test]
fn quarter_turn_exchanges_the_sides() {
    let picture = numbered(3, 2);
    let turned = orient(picture.clone(), Orientation::Rotate90);
    assert_eq!(turned.dimensions(), (2, 3));
    for y in 0..2 {
        for x in 0..3 {
            assert_eq!(turned.get_pixel(1 - y, x), picture.get_pixel(x, y));
        }
    }
}

#[test]
fn three_quarter_turn_exchanges_the_sides() {
    let picture = numbered(3, 2);
    let turned = orient(picture.clone(), Orientation::Rotate270);
    assert_eq!(turned.dimensions(), (2, 3));
    for y in 0..2 {
        for x in 0..3 {
            assert_eq!(turned.get_pixel(y, 2 - x), picture.get_pixel(x, y));
        }
    }
}

#[test]
fn turn_then_flip_mirrors_across_the_rising_diagonal() {
    let picture = numbered(3, 2);
    for orientation in [Orientation::Rotate90FlipVertical, Orientation::Rotate270FlipHorizontal] {
        let turned = orient(picture.clone(), orientation);
        assert_eq!(turned.dimensions(), (2, 3));
        for y in 0..2 {
            for x in 0..3 {
                assert_eq!(turned.get_pixel(1 - y, 2 - x), picture.get_pixel(x, y));
            }
        }
    }
}

#[test]
fn every_orientation_is_undone_by_its_inverse() {
    let picture = numbered(5, 3);
    for orientation in ALL {
        let there = orient(picture.clone(), orientation);
        let back = orient(there, orientation.inverse());
        assert!(same_pixels(&back, &picture));
    }
}

#[test]
fn four_quarter_turns_give_the_picture_back() {
    let picture = numbered(4, 3);
    let mut turned = picture.clone();
    for _ in 0..4 {
        turned = orient(turned, Orientation::Rotate90);
    }
    assert!(same_pixels(&turned, &picture));
}

#[test]
fn orientation_keeps_the_pixel_layout() {
    let grey = DynamicImage::ImageLuma8(image::GrayImage::from_fn(2, 3, |x, y| {
        image::Luma([(x + 2 * y) as u8])
    }));
    for orientation in ALL {
        assert_eq!(orient(grey.clone(), orientation).color(), image::ColorType::L8);
    }
}
