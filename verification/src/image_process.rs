//! From the raw bytes of an upload to what is kept of it: a main picture, a
//! thumbnail and a fingerprint.
//!
//! The steps run in a fixed order: decode, read the orientation, make the
//! picture upright, render the two sizes, encode them. The first step that
//! fails decides the error.

use crate::error::UploadError;
use crate::hasher::{hash, hash_of};
use crate::metadata::{orientation_code_in, read_orientation_code};
use crate::orientation::{
    grid_width, has_pixels, lemma_shapes, orientation_of, oriented, rotated_270, rotated_90,
    Grid, Orientation,
};
use crate::picture::{
    decode_picture, decoding, encode_jpeg, flip_horizontally, flip_vertically, image_layout,
    image_pixels, jpeg_encoding, picture_height, picture_width, resample, resampling, rotate_180,
    rotate_270, rotate_90,
};
use crate::variant::{fit_within, fitted, Variant, ENCODING_QUALITY};
use vstd::prelude::*;

verus! {

/// The pixels of a rendition: those of the upright picture resampled to the
/// size that fits the rendition's box.
pub open spec fn rendition_pixels(layout: nat, pixels: Grid, variant: Variant) -> Grid {
    let size = fitted(
        grid_width(pixels),
        pixels.len(),
        variant.bounds_of().0 as nat,
        variant.bounds_of().1 as nat,
    );
    resampling(layout, pixels, size.0, size.1)
}

/// The file of a rendition: its pixels encoded as JPEG at the fixed
/// quality, `None` where the encoder refuses them.
pub open spec fn rendition(layout: nat, pixels: Grid, variant: Variant) -> Option<Seq<u8>> {
    jpeg_encoding(layout, rendition_pixels(layout, pixels, variant), ENCODING_QUALITY)
}

/// The pixels lie within the box of the rendition, at least one each way.
pub open spec fn within_box(pixels: Grid, variant: Variant) -> bool {
    &&& has_pixels(pixels)
    &&& grid_width(pixels) <= variant.bounds_of().0
    &&& pixels.len() <= variant.bounds_of().1
}

/// The pixels that are encoded for a rendition of the upload `bytes`, where
/// the upload decodes and names a valid orientation: those of the decoded
/// picture, made upright and fitted to the rendition's box.
pub open spec fn encoded_pixels(bytes: Seq<u8>, variant: Variant) -> Grid {
    rendition_pixels(
        decoding(bytes).unwrap().0,
        oriented(
            decoding(bytes).unwrap().1,
            orientation_of(orientation_code_in(bytes)).unwrap(),
        ),
        variant,
    )
}

/// What processing the upload `bytes` gives: the main picture, the
/// thumbnail and the fingerprint of the bytes as uploaded, or the error of
/// the first step that fails. Bytes that decode to a picture without pixels
/// count as not decodable.
pub open spec fn processed(bytes: Seq<u8>) -> Result<(Seq<u8>, Seq<u8>, i32), UploadError> {
    match decoding(bytes) {
        None => Err(UploadError::DecodeFailure),
        Some((layout, pixels)) => if !has_pixels(pixels) {
            Err(UploadError::DecodeFailure)
        } else {
            match orientation_of(orientation_code_in(bytes)) {
                Err(e) => Err(e),
                Ok(orientation) => {
                    let upright = oriented(pixels, orientation);
                    match (
                        rendition(layout, upright, Variant::Main),
                        rendition(layout, upright, Variant::Thumbnail),
                    ) {
                        (Some(main), Some(thumbnail)) => Ok(
                            (main, thumbnail, hash_of(bytes)),
                        ),
                        _ => Err(UploadError::EncodeFailure),
                    }
                },
            }
        },
    }
}

/// Makes a stored picture upright: applies the orientation to its pixels and
/// keeps its layout.
pub fn orient(picture: image::DynamicImage, orientation: Orientation) -> (upright:
    image::DynamicImage)
    requires
        has_pixels(image_pixels(picture)),
    ensures
        image_pixels(upright) == oriented(image_pixels(picture), orientation),
        image_layout(upright) == image_layout(picture),
        has_pixels(image_pixels(upright)),
{
    proof {
        lemma_shapes(image_pixels(picture));
        lemma_shapes(rotated_90(image_pixels(picture)));
        lemma_shapes(rotated_270(image_pixels(picture)));
    }
    match orientation {
        Orientation::Identity => picture,
        Orientation::FlipVertical => flip_vertically(&picture),
        Orientation::Rotate180 => rotate_180(&picture),
        Orientation::FlipHorizontal => flip_horizontally(&picture),
        Orientation::Rotate90FlipVertical => {
            let turned = rotate_90(&picture);
            flip_vertically(&turned)
        },
        Orientation::Rotate90 => rotate_90(&picture),
        Orientation::Rotate270FlipHorizontal => {
            let turned = rotate_270(&picture);
            flip_horizontally(&turned)
        },
        Orientation::Rotate270 => rotate_270(&picture),
    }
}

/// Renders one rendition of an upright picture: resamples it to the size
/// that fits the rendition's box, a picture that fits being kept as it is,
/// and encodes the result as JPEG. The pixels that are encoded have the
/// fitted size, so they lie within the box.
pub fn render(picture: &image::DynamicImage, variant: Variant) -> (outcome: Result<
    Vec<u8>,
    UploadError,
>)
    requires
        has_pixels(image_pixels(*picture)),
    ensures
        match outcome {
            Ok(file) => rendition(image_layout(*picture), image_pixels(*picture), variant) == Some(
                file@,
            ),
            Err(e) => e == UploadError::EncodeFailure && rendition(
                image_layout(*picture),
                image_pixels(*picture),
                variant,
            ) is None,
        },
        fitted(
            grid_width(image_pixels(*picture)),
            image_pixels(*picture).len(),
            variant.bounds_of().0 as nat,
            variant.bounds_of().1 as nat,
        ) == (grid_width(image_pixels(*picture)), image_pixels(*picture).len())
            ==> rendition_pixels(image_layout(*picture), image_pixels(*picture), variant)
            == image_pixels(*picture),
        ({
            let pixels = rendition_pixels(image_layout(*picture), image_pixels(*picture), variant);
            let size = fitted(
                grid_width(image_pixels(*picture)),
                image_pixels(*picture).len(),
                variant.bounds_of().0 as nat,
                variant.bounds_of().1 as nat,
            );
            &&& has_pixels(pixels)
            &&& grid_width(pixels) == size.0
            &&& pixels.len() == size.1
            &&& grid_width(pixels) <= variant.bounds_of().0
            &&& pixels.len() <= variant.bounds_of().1
        }),
{
    let width = picture_width(picture);
    let height = picture_height(picture);
    let (box_width, box_height) = variant.bounds();
    let (new_width, new_height) = fit_within(width, height, box_width, box_height);
    let resized = resample(picture, new_width, new_height);
    assert(has_pixels(image_pixels(resized)));
    match encode_jpeg(&resized, ENCODING_QUALITY) {
        Ok(file) => Ok(file),
        Err(_) => Err(UploadError::EncodeFailure),
    }
}

/// Turns the raw bytes of an upload into the main picture, the thumbnail
/// and the fingerprint, in that order. The fingerprint is that of the bytes
/// as uploaded, whatever is done to the pixels. The pixels encoded for the
/// main picture lie within 1920 by 1080, those for the thumbnail within 864
/// by 486.
pub fn process(bytes: Vec<u8>) -> (outcome: Result<(Vec<u8>, Vec<u8>, i32), UploadError>)
    ensures
        processed(bytes@) == (match outcome {
            Ok((main, thumbnail, print)) => Ok::<(Seq<u8>, Seq<u8>, i32), UploadError>(
                (main@, thumbnail@, print),
            ),
            Err(e) => Err::<(Seq<u8>, Seq<u8>, i32), UploadError>(e),
        }),
        outcome is Ok ==> within_box(encoded_pixels(bytes@, Variant::Main), Variant::Main)
            && within_box(encoded_pixels(bytes@, Variant::Thumbnail), Variant::Thumbnail),
{
    let print = hash(&bytes);
    let picture = match decode_picture(bytes.as_slice()) {
        Ok(picture) => picture,
        Err(_) => {
            return Err(UploadError::DecodeFailure);
        },
    };
    let width = picture_width(&picture);
    let height = picture_height(&picture);
    if width == 0 || height == 0 {
        return Err(UploadError::DecodeFailure);
    }
    let orientation = match Orientation::from_code(read_orientation_code(bytes.as_slice())) {
        Ok(orientation) => orientation,
        Err(e) => {
            return Err(e);
        },
    };
    let upright = orient(picture, orientation);
    let main = match render(&upright, Variant::Main) {
        Ok(file) => file,
        Err(e) => {
            return Err(e);
        },
    };
    let thumbnail = match render(&upright, Variant::Thumbnail) {
        Ok(file) => file,
        Err(e) => {
            return Err(e);
        },
    };
    Ok((main, thumbnail, print))
}

} // verus!
