use picture_upload::variant::{fit_within, Variant, ENCODING_QUALITY};

#[test]
fn boxes_of_the_renditions() {
    assert_eq!(Variant::Main.bounds(), (1920, 1080));
    assert_eq!(Variant::Thumbnail.bounds(), (864, 486));
    assert_eq!(ENCODING_QUALITY, 95);
}

#[test]
fn picture_that_fits_keeps_its_size() {
    assert_eq!(fit_within(100, 50, 1920, 1080), (100, 50));
    assert_eq!(fit_within(1920, 1080, 1920, 1080), (1920, 1080));
    assert_eq!(fit_within(1, 1, 864, 486), (1, 1));
    assert_eq!(fit_within(864, 1, 864, 486), (864, 1));
}

#[test]
fn landscape_is_scaled_to_the_deciding_side() {
    assert_eq!(fit_within(3840, 2160, 1920, 1080), (1920, 1080));
    assert_eq!(fit_within(4000, 3000, 1920, 1080), (1440, 1080));
    assert_eq!(fit_within(4000, 2000, 1920, 1080), (1920, 960));
    assert_eq!(fit_within(4000, 3000, 864, 486), (648, 486));
}

#[test]
fn portrait_is_scaled_to_the_height() {
    assert_eq!(fit_within(3000, 4000, 1920, 1080), (810, 1080));
    assert_eq!(fit_within(3000, 4000, 864, 486), (365, 486));
    assert_eq!(fit_within(1080, 1920, 1920, 1080), (608, 1080));
}

#[test]
fn halves_round_upward() {
    assert_eq!(fit_within(4, 2, 2, 2), (2, 1));
    assert_eq!(fit_within(4, 3, 2, 2), (2, 2));
    assert_eq!(fit_within(4, 1, 2, 2), (2, 1));
    assert_eq!(fit_within(6, 5, 3, 3), (3, 3));
    assert_eq!(fit_within(1921, 1080, 1920, 1080), (1920, 1079));
}

#[test]
fn very_thin_picture_keeps_one_pixel() {
    assert_eq!(fit_within(10000, 1, 1920, 1080), (1920, 1));
    assert_eq!(fit_within(1, 10000, 1920, 1080), (1, 1080));
    assert_eq!(fit_within(u32::MAX, 1, 864, 486), (864, 1));
    assert_eq!(fit_within(u32::MAX, u32::MAX, 1920, 1080), (1080, 1080));
}

#[test]
fn fitted_size_lies_within_the_box_and_the_picture() {
    let sides = [1u32, 2, 3, 485, 486, 487, 863, 864, 865, 1079, 1080, 1081, 1919, 1920, 1921, 5000];
    for &w in sides.iter() {
        for &h in sides.iter() {
            for variant in [Variant::Main, Variant::Thumbnail] {
                let (bw, bh) = variant.bounds();
                let (nw, nh) = fit_within(w, h, bw, bh);
                assert!(1 <= nw && nw <= bw && nw <= w);
                assert!(1 <= nh && nh <= bh && nh <= h);
                assert!(nw.max(nh) <= bw && nw.min(nh) <= bh);
                if w <= bw && h <= bh {
                    assert_eq!((nw, nh), (w, h));
                } else {
                    assert!(nw == bw || nh == bh);
                }
            }
        }
    }
}
