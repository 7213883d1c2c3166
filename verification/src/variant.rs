//! The two renditions of an upload and the sizes they are given.
//!
//! A rendition fits within a box and keeps the picture's proportions. A
//! picture that already fits is left at its size: nothing is ever enlarged.

use vstd::prelude::*;

verus! {

/// Which rendition of an upload.
#[derive(Clone, Copy, Debug, PartialEq, Eq, Structural)]
pub enum Variant {
    /// The picture as shown on its own, within 1920 by 1080.
    Main,
    /// The picture as shown in lists, within 864 by 486.
    Thumbnail,
}

/// The quality, out of 100, at which renditions are encoded.
pub const ENCODING_QUALITY: u8 = 95;

impl Variant {
    /// The box of the rendition: its greatest width and height.
    pub open spec fn bounds_of(self) -> (u32, u32) {
        match self {
            Variant::Main => (1920u32, 1080u32),
            Variant::Thumbnail => (864u32, 486u32),
        }
    }

    /// The box of the rendition: its greatest width and height.
    pub fn bounds(self) -> (bounds: (u32, u32))
        ensures
            bounds == self.bounds_of(),
            bounds.0 >= 1,
            bounds.1 >= 1,
    {
        match self {
            Variant::Main => (1920, 1080),
            Variant::Thumbnail => (864, 486),
        }
    }
}

/// `side * numerator / denominator` rounded to the nearest integer, halves
/// upward, and never less than 1.
pub open spec fn scaled_side(side: nat, numerator: nat, denominator: nat) -> nat {
    let rounded = (2 * side * numerator + denominator) / (2 * denominator);
    if rounded < 1 {
        1
    } else {
        rounded as nat
    }
}

/// The picture's width is what keeps it from fitting, or keeps it from it
/// the most: scaled to the box's width, its height stays within the box.
pub open spec fn width_decides(width: nat, height: nat, box_width: nat, box_height: nat) -> bool {
    width * box_height >= height * box_width
}

/// The size of a `width` by `height` picture fitted within the box: its own
/// size where it fits, else the greatest size of its proportions that does.
pub open spec fn fitted(width: nat, height: nat, box_width: nat, box_height: nat) -> (nat, nat) {
    if width <= box_width && height <= box_height {
        (width, height)
    } else if width_decides(width, height, box_width, box_height) {
        (box_width, scaled_side(height, box_width, width))
    } else {
        (scaled_side(width, box_height, height), box_height)
    }
}

proof fn lemma_product_bound(a: nat, b: nat, c: nat, d: nat)
    requires
        a <= c,
        b <= d,
    ensures
        a * b <= c * d,
{
    assert(a * b <= c * d) by (nonlinear_arith)
        requires
            a <= c,
            b <= d,
    ;
}

/// A side scaled by a ratio of at most `limit / side` stays within `limit`
/// and, where the ratio is below 1, within the side itself.
proof fn lemma_scaled_side_bounds(side: nat, numerator: nat, denominator: nat, limit: nat)
    requires
        side >= 1,
        limit >= 1,
        denominator >= 1,
        side * numerator <= denominator * limit,
    ensures
        1 <= scaled_side(side, numerator, denominator) <= limit,
        numerator <= denominator ==> scaled_side(side, numerator, denominator) <= side,
{
    let top = 2 * side * numerator + denominator;
    let bottom = 2 * denominator;
    assert(top < bottom * (limit + 1)) by (nonlinear_arith)
        requires
            top == 2 * side * numerator + denominator,
            bottom == 2 * denominator,
            denominator >= 1,
            side * numerator <= denominator * limit,
    ;
    assert(top / bottom <= limit) by (nonlinear_arith)
        requires
            top < bottom * (limit + 1),
            bottom > 0,
            top >= 0,
    ;
    if numerator <= denominator {
        assert(top < bottom * (side + 1)) by (nonlinear_arith)
            requires
                top == 2 * side * numerator + denominator,
                bottom == 2 * denominator,
                denominator >= 1,
                numerator <= denominator,
                side >= 1,
        ;
        assert(top / bottom <= side) by (nonlinear_arith)
            requires
                top < bottom * (side + 1),
                bottom > 0,
                top >= 0,
        ;
    }
}

/// Where the width decides and the picture does not fit, the picture is
/// wider than the box; likewise for the height.
proof fn lemma_deciding_side_exceeds(width: nat, height: nat, box_width: nat, box_height: nat)
    requires
        width >= 1,
        height >= 1,
        box_width >= 1,
        box_height >= 1,
        !(width <= box_width && height <= box_height),
    ensures
        width_decides(width, height, box_width, box_height) ==> width > box_width,
        !width_decides(width, height, box_width, box_height) ==> height > box_height,
{
    if width_decides(width, height, box_width, box_height) {
        if width <= box_width {
            assert(height * box_width > width * box_height) by (nonlinear_arith)
                requires
                    width <= box_width,
                    height > box_height,
                    box_width >= 1,
                    width >= 1,
            ;
        }
    } else {
        if height <= box_height {
            assert(width * box_height >= height * box_width) by (nonlinear_arith)
                requires
                    height <= box_height,
                    width > box_width,
                    box_height >= 1,
                    height >= 1,
            ;
        }
    }
}

/// A fitted size lies within the box and within the picture's own size, and
/// has at least one pixel each way. For the main rendition: no wider than
/// 1920 and no higher than 1080, so the longer side never exceeds 1920 nor
/// the shorter 1080; for the thumbnail likewise with 864 and 486.
pub proof fn lemma_fitted_within(width: nat, height: nat, box_width: nat, box_height: nat)
    requires
        width >= 1,
        height >= 1,
        box_width >= 1,
        box_height >= 1,
    ensures
        1 <= fitted(width, height, box_width, box_height).0 <= box_width,
        1 <= fitted(width, height, box_width, box_height).1 <= box_height,
        fitted(width, height, box_width, box_height).0 <= width,
        fitted(width, height, box_width, box_height).1 <= height,
        box_width >= box_height ==> {
            let (w, h) = fitted(width, height, box_width, box_height);
            &&& (if w >= h { w } else { h }) <= box_width
            &&& (if w >= h { h } else { w }) <= box_height
        },
{
    if width <= box_width && height <= box_height {
    } else {
        lemma_deciding_side_exceeds(width, height, box_width, box_height);
        if width_decides(width, height, box_width, box_height) {
            assert(height * box_width <= width * box_height);
            lemma_scaled_side_bounds(height, box_width, width, box_height);
        } else {
            assert(width * box_height <= height * box_width);
            lemma_scaled_side_bounds(width, box_height, height, box_width);
        }
    }
}

/// A picture that fits within the box keeps its size.
pub proof fn lemma_fitting_picture_keeps_size(
    width: nat,
    height: nat,
    box_width: nat,
    box_height: nat,
)
    requires
        width <= box_width,
        height <= box_height,
    ensures
        fitted(width, height, box_width, box_height) == (width, height),
{
}

/// A picture that does not fit is scaled to touch the box on the side that
/// decides, and its other side is the nearest whole number of pixels to what
/// its proportions ask for, or one pixel where they ask for less than half
/// a pixel: the proportions are kept within rounding.
pub proof fn lemma_fitted_keeps_proportions(
    width: nat,
    height: nat,
    box_width: nat,
    box_height: nat,
)
    requires
        width >= 1,
        height >= 1,
        box_width >= 1,
        box_height >= 1,
        !(width <= box_width && height <= box_height),
    ensures
        ({
            let (w, h) = fitted(width, height, box_width, box_height);
            if width_decides(width, height, box_width, box_height) {
                &&& w == box_width
                &&& if 2 * (height * w) < width {
                    h == 1
                } else {
                    -(width as int) < 2 * (h * width) - 2 * (height * w) <= width
                }
            } else {
                &&& h == box_height
                &&& if 2 * (width * h) < height {
                    w == 1
                } else {
                    -(height as int) < 2 * (w * height) - 2 * (width * h) <= height
                }
            }
        }),
{
    if width_decides(width, height, box_width, box_height) {
        lemma_nearest_side(height, box_width, width);
    } else {
        lemma_nearest_side(width, box_height, height);
    }
}

/// A scaled side is the whole number nearest to the exact quotient, or 1
/// where the quotient is below one half.
proof fn lemma_nearest_side(side: nat, numerator: nat, denominator: nat)
    requires
        denominator >= 1,
    ensures
        ({
            let scaled = scaled_side(side, numerator, denominator);
            if 2 * (side * numerator) < denominator {
                scaled == 1
            } else {
                -(denominator as int) < 2 * (scaled * denominator) - 2 * (side * numerator)
                    <= denominator
            }
        }),
{
    let product = side * numerator;
    let rounded = (2 * product + denominator) / (2 * denominator);
    lemma_rounded_quotient(product, denominator);
    assert(2 * side * numerator == 2 * product) by (nonlinear_arith)
        requires
            product == side * numerator,
    ;
    assert(rounded * denominator == denominator * rounded) by (nonlinear_arith);
    if 2 * product < denominator {
        assert(rounded < 1) by (nonlinear_arith)
            requires
                2 * (denominator * rounded) <= 2 * product + denominator,
                2 * product < denominator,
                denominator >= 1,
        ;
    } else {
        assert(rounded >= 1) by (nonlinear_arith)
            requires
                2 * product + denominator < 2 * (denominator * rounded) + 2 * denominator,
                2 * product >= denominator,
                denominator >= 1,
        ;
    }
}

/// The quotient rounded half up lies within half a unit of the exact one.
proof fn lemma_rounded_quotient(product: nat, denominator: nat)
    requires
        denominator >= 1,
    ensures
        ({
            let rounded = (2 * product + denominator) / (2 * denominator);
            &&& 2 * (denominator * rounded) <= 2 * product + denominator
            &&& 2 * product + denominator < 2 * (denominator * rounded) + 2 * denominator
            &&& rounded >= 0
        }),
{
    let top = 2 * product + denominator;
    let bottom = 2 * denominator;
    let rounded = top / bottom;
    assert(bottom * rounded <= top < bottom * rounded + bottom && rounded >= 0)
        by (nonlinear_arith)
        requires
            rounded == top / bottom,
            bottom > 0,
            top >= 0,
    ;
    assert(bottom * rounded == 2 * (denominator * rounded)) by (nonlinear_arith)
        requires
            bottom == 2 * denominator,
    ;
}

/// The length of one side after scaling by `numerator / denominator`.
fn scale_side(side: u32, numerator: u32, denominator: u32, limit: u32) -> (scaled: u32)
    requires
        side >= 1,
        limit >= 1,
        denominator >= 1,
        side * numerator <= denominator * limit,
    ensures
        scaled == scaled_side(side as nat, numerator as nat, denominator as nat),
        1 <= scaled <= limit,
{
    proof {
        lemma_scaled_side_bounds(side as nat, numerator as nat, denominator as nat, limit as nat);
        lemma_product_bound(side as nat, numerator as nat, 0xffff_ffff, 0xffff_ffff);
    }
    let product: u128 = (side as u128) * (numerator as u128);
    let top: u128 = 2 * product + (denominator as u128);
    let bottom: u128 = 2 * (denominator as u128);
    assert(2 * side * numerator == 2 * (side * numerator)) by (nonlinear_arith);
    let rounded: u128 = top / bottom;
    if rounded < 1 {
        1
    } else {
        rounded as u32
    }
}

/// The size at which a `width` by `height` picture is rendered within the
/// box: its own size where it fits, else scaled down, proportions kept, to
/// touch the box.
pub fn fit_within(width: u32, height: u32, box_width: u32, box_height: u32) -> (size: (u32, u32))
    requires
        width >= 1,
        height >= 1,
        box_width >= 1,
        box_height >= 1,
    ensures
        (size.0 as nat, size.1 as nat) == fitted(
            width as nat,
            height as nat,
            box_width as nat,
            box_height as nat,
        ),
        1 <= size.0 <= box_width,
        1 <= size.1 <= box_height,
        size.0 <= width,
        size.1 <= height,
{
    proof {
        lemma_fitted_within(width as nat, height as nat, box_width as nat, box_height as nat);
        lemma_product_bound(width as nat, box_height as nat, 0xffff_ffff, 0xffff_ffff);
        lemma_product_bound(height as nat, box_width as nat, 0xffff_ffff, 0xffff_ffff);
    }
    if width <= box_width && height <= box_height {
        (width, height)
    } else if (width as u64) * (box_height as u64) >= (height as u64) * (box_width as u64) {
        (box_width, scale_side(height, box_width, width, box_height))
    } else {
        (scale_side(width, box_height, height, box_width), box_height)
    }
}

} // verus!
