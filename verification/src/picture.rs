//! Pictures in memory, held by the `image` crate.
//!
//! Verus does not look inside a `DynamicImage`. What the rest of the library
//! reasons about is named here: the grid of pixels that a picture holds and
//! its pixel layout. Each operation of the `image` crate that the library
//! uses is stated over those two; none of these statements is proved.

use crate::orientation::{
    flipped_horizontally, flipped_vertically, has_pixels, rotated_180, rotated_270, rotated_90,
};
use vstd::prelude::*;

verus! {

/// A decoded picture of any pixel layout, as the `image` crate holds it.
#[verifier::external_type_specification]
#[verifier::external_body]
pub struct ExDynamicImage(image::DynamicImage);

/// Why the `image` crate could not decode or encode.
#[verifier::external_type_specification]
#[verifier::external_body]
pub struct ExImageError(image::ImageError);

/// The pixels that a picture holds: its rows from top to bottom, in each
/// row the pixels from left to right, each pixel as the bytes of its
/// channels in order, the low byte first where a channel has several.
pub uninterp spec fn image_pixels(picture: image::DynamicImage) -> Seq<Seq<Seq<u8>>>;

/// The pixel layout of a picture (8-bit grey, 16-bit colour with alpha and
/// so on): the place of its `ColorType` in the list of them.
pub uninterp spec fn image_layout(picture: image::DynamicImage) -> nat;

/// What decoding the picture file `bytes` gives: `None` where the decoder
/// refuses them, else the layout and the pixels of the picture.
pub uninterp spec fn decoding(bytes: Seq<u8>) -> Option<(nat, Seq<Seq<Seq<u8>>>)>;

/// The pixels of a picture of the given layout resampled to `width` by
/// `height` with the triangle filter.
pub uninterp spec fn resampling(
    layout: nat,
    pixels: Seq<Seq<Seq<u8>>>,
    width: nat,
    height: nat,
) -> Seq<Seq<Seq<u8>>>;

/// The JPEG file that encodes a picture of the given layout and pixels at
/// the given quality; `None` where the encoder refuses the picture.
pub uninterp spec fn jpeg_encoding(layout: nat, pixels: Seq<Seq<Seq<u8>>>, quality: u8) -> Option<
    Seq<u8>,
>;

/// Decodes a picture file: `image::io::Reader::new` on the bytes,
/// `with_guessed_format`, then `decode`. The outcome depends on the bytes
/// alone; the contract names it and says that the call fails exactly where
/// the name is `None`.
#[verifier::external_body]
pub(crate) fn decode_picture(bytes: &[u8]) -> (outcome: Result<
    image::DynamicImage,
    image::ImageError,
>)
    ensures
        match outcome {
            Ok(picture) => decoding(bytes@) == Some((image_layout(picture), image_pixels(picture))),
            Err(_) => decoding(bytes@) is None,
        },
{
    image::io::Reader::new(std::io::Cursor::new(bytes)).with_guessed_format()?.decode()
}

/// `DynamicImage::width`: the length of every row of the picture.
#[verifier::external_body]
pub(crate) fn picture_width(picture: &image::DynamicImage) -> (width: u32)
    ensures
        forall|y: int|
            0 <= y < image_pixels(*picture).len() ==> (#[trigger] image_pixels(*picture)[y]).len()
                == width,
{
    picture.width()
}

/// `DynamicImage::height`: the number of rows of the picture.
#[verifier::external_body]
pub(crate) fn picture_height(picture: &image::DynamicImage) -> (height: u32)
    ensures
        height == image_pixels(*picture).len(),
{
    picture.height()
}

/// `DynamicImage::flipv`: a picture of the same layout whose pixel at
/// `(x, height - 1 - y)` is the one that was at `(x, y)`.
#[verifier::external_body]
pub(crate) fn flip_vertically(picture: &image::DynamicImage) -> (flipped: image::DynamicImage)
    ensures
        image_pixels(flipped) == flipped_vertically(image_pixels(*picture)),
        image_layout(flipped) == image_layout(*picture),
{
    picture.flipv()
}

/// `DynamicImage::fliph`: a picture of the same layout whose pixel at
/// `(width - 1 - x, y)` is the one that was at `(x, y)`.
#[verifier::external_body]
pub(crate) fn flip_horizontally(picture: &image::DynamicImage) -> (flipped: image::DynamicImage)
    ensures
        image_pixels(flipped) == flipped_horizontally(image_pixels(*picture)),
        image_layout(flipped) == image_layout(*picture),
{
    picture.fliph()
}

/// `DynamicImage::rotate90`: a picture of the same layout, width and height
/// exchanged, whose pixel at `(height - 1 - y, x)` is the one that was at
/// `(x, y)`.
#[verifier::external_body]
pub(crate) fn rotate_90(picture: &image::DynamicImage) -> (rotated: image::DynamicImage)
    requires
        has_pixels(image_pixels(*picture)),
    ensures
        image_pixels(rotated) == rotated_90(image_pixels(*picture)),
        image_layout(rotated) == image_layout(*picture),
{
    picture.rotate90()
}

/// `DynamicImage::rotate180`: a picture of the same layout whose pixel at
/// `(width - 1 - x, height - 1 - y)` is the one that was at `(x, y)`.
#[verifier::external_body]
pub(crate) fn rotate_180(picture: &image::DynamicImage) -> (rotated: image::DynamicImage)
    ensures
        image_pixels(rotated) == rotated_180(image_pixels(*picture)),
        image_layout(rotated) == image_layout(*picture),
{
    picture.rotate180()
}

/// `DynamicImage::rotate270`: a picture of the same layout, width and height
/// exchanged, whose pixel at `(y, width - 1 - x)` is the one that was at
/// `(x, y)`.
#[verifier::external_body]
pub(crate) fn rotate_270(picture: &image::DynamicImage) -> (rotated: image::DynamicImage)
    requires
        has_pixels(image_pixels(*picture)),
    ensures
        image_pixels(rotated) == rotated_270(image_pixels(*picture)),
        image_layout(rotated) == image_layout(*picture),
{
    picture.rotate270()
}

/// `DynamicImage::resize_exact` with the triangle filter: a picture of the
/// same layout and of exactly the size asked for. Its pixels depend on the
/// layout, the pixels and the size alone, and the contract names them; asked
/// for the picture's own size, the call copies the picture.
#[verifier::external_body]
pub(crate) fn resample(picture: &image::DynamicImage, width: u32, height: u32) -> (resized:
    image::DynamicImage)
    requires
        has_pixels(image_pixels(*picture)),
        width >= 1,
        height >= 1,
    ensures
        image_pixels(resized) == resampling(
            image_layout(*picture),
            image_pixels(*picture),
            width as nat,
            height as nat,
        ),
        image_layout(resized) == image_layout(*picture),
        image_pixels(resized).len() == height,
        forall|y: int| 0 <= y < height ==> (#[trigger] image_pixels(resized)[y]).len() == width,
        width == image_pixels(*picture)[0].len() && height == image_pixels(*picture).len()
            ==> image_pixels(resized) == image_pixels(*picture),
{
    picture.resize_exact(width, height, image::imageops::FilterType::Triangle)
}

/// `DynamicImage::write_to` into memory as JPEG of the given quality. The
/// file depends on the layout, the pixels and the quality alone; the
/// contract names it and says that the call fails exactly where the name is
/// `None`.
#[verifier::external_body]
pub(crate) fn encode_jpeg(picture: &image::DynamicImage, quality: u8) -> (outcome: Result<
    Vec<u8>,
    image::ImageError,
>)
    requires
        has_pixels(image_pixels(*picture)),
    ensures
        match outcome {
            Ok(file) => jpeg_encoding(image_layout(*picture), image_pixels(*picture), quality)
                == Some(file@),
            Err(_) => jpeg_encoding(image_layout(*picture), image_pixels(*picture), quality)
                is None,
        },
{
    let mut file = std::io::Cursor::new(Vec::new());
    picture.write_to(&mut file, image::ImageOutputFormat::Jpeg(quality))?;
    Ok(file.into_inner())
}

} // verus!
