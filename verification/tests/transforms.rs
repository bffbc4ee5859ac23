use image::DynamicImage;
use rasterkit::common::CommonImage;
use rasterkit::errors::{EngineError, ParseError};
use rasterkit::wrapper::ImageWrapper;

fn mk_img(w: u32, h: u32) -> CommonImage {
    let mut data = Vec::new();
    for i in 0..(w * h) {
        data.push((i * 3 % 251) as u8);
        data.push((i * 7 % 251) as u8);
        data.push((i * 11 % 251) as u8);
    }
    let buf = image::RgbImage::from_raw(w, h, data).unwrap();
    CommonImage::new(ImageWrapper::new(DynamicImage::ImageRgb8(buf)))
}

fn raw_pixels(img: &CommonImage) -> (u32, u32, Vec<u8>) {
    let png = img.to_png().unwrap();
    let d = image::load_from_memory(&png).unwrap();
    let rgb = d.to_rgb8();
    (rgb.width(), rgb.height(), rgb.into_raw())
}

#[test]
fn flip_horizontal_twice_is_identity() {
    let img = mk_img(3, 2);
    let back = img.flip(Some(true)).flip(Some(true));
    assert_eq!(raw_pixels(&img), raw_pixels(&back));
}

#[test]
fn flip_vertical_twice_is_identity() {
    let img = mk_img(3, 2);
    let back = img.flip(Some(false)).flip(Some(false));
    assert_eq!(raw_pixels(&img), raw_pixels(&back));
}

#[test]
fn rotate_half_turn_twice_is_identity() {
    let img = mk_img(4, 3);
    let back = img.rotate_quarter(2).rotate_quarter(2);
    assert_eq!(raw_pixels(&img), raw_pixels(&back));
}

#[test]
fn rotate_four_quarters_is_identity() {
    let img = mk_img(4, 3);
    assert_eq!(raw_pixels(&img), raw_pixels(&img.rotate_quarter(4)));
}

#[test]
fn rotate_single_quarters_compose_to_identity() {
    let img = mk_img(4, 3);
    let r = img.rotate_quarter(1).rotate_quarter(1).rotate_quarter(1).rotate_quarter(1);
    assert_eq!(raw_pixels(&img), raw_pixels(&r));
}

#[test]
fn rotate_count_taken_modulo_four() {
    let img = mk_img(4, 3);
    assert_eq!(raw_pixels(&img.rotate_quarter(5)), raw_pixels(&img.rotate_quarter(1)));
}

#[test]
fn rotate_quarter_permutes_pixels() {
    // A 2 by 2 raster [p0 p1 / p2 p3] turned clockwise is [p2 p0 / p3 p1].
    let img = mk_img(2, 2);
    let (_, _, o) = raw_pixels(&img);
    let (w, h, turned) = raw_pixels(&img.rotate_quarter(1));
    assert_eq!((w, h), (2, 2));
    let px = |v: &[u8], i: usize| v[i * 3..i * 3 + 3].to_vec();
    assert_eq!(px(&turned, 0), px(&o, 2));
    assert_eq!(px(&turned, 1), px(&o, 0));
    assert_eq!(px(&turned, 2), px(&o, 3));
    assert_eq!(px(&turned, 3), px(&o, 1));
}

#[test]
fn rotate_half_turn_permutes_pixels() {
    // A 2 by 1 raster [p0 p1] turned half way round is [p1 p0].
    let img = mk_img(2, 1);
    let (_, _, o) = raw_pixels(&img);
    let (_, _, turned) = raw_pixels(&img.rotate_quarter(2));
    assert_eq!(&turned[0..3], &o[3..6]);
    assert_eq!(&turned[3..6], &o[0..3]);
}

#[test]
fn rotate_three_quarters_permutes_pixels() {
    // A 2 by 2 raster [p0 p1 / p2 p3] turned counter-clockwise is [p1 p3 / p0 p2].
    let img = mk_img(2, 2);
    let (_, _, o) = raw_pixels(&img);
    let (w, h, turned) = raw_pixels(&img.rotate_quarter(3));
    assert_eq!((w, h), (2, 2));
    let px = |v: &[u8], i: usize| v[i * 3..i * 3 + 3].to_vec();
    assert_eq!(px(&turned, 0), px(&o, 1));
    assert_eq!(px(&turned, 1), px(&o, 3));
    assert_eq!(px(&turned, 2), px(&o, 0));
    assert_eq!(px(&turned, 3), px(&o, 2));
}

#[test]
fn flip_vertical_permutes_pixels() {
    // A 1 by 2 raster with p0 above p1 flips to p1 above p0.
    let img = mk_img(1, 2);
    let (_, _, o) = raw_pixels(&img);
    let (_, _, flipped) = raw_pixels(&img.flip(Some(false)));
    assert_eq!(&flipped[0..3], &o[3..6]);
    assert_eq!(&flipped[3..6], &o[0..3]);
}

#[test]
fn rotate_quarter_swaps_dimensions() {
    let img = mk_img(4, 3);
    assert_eq!(img.rotate_quarter(1).dimensions(), vec![3, 4]);
    assert_eq!(img.rotate_quarter(3).dimensions(), vec![3, 4]);
    assert_eq!(img.rotate_quarter(2).dimensions(), vec![4, 3]);
}

#[test]
fn flip_horizontal_permutes_pixels() {
    let img = mk_img(2, 1);
    let (_, _, orig) = raw_pixels(&img);
    let (_, _, flipped) = raw_pixels(&img.flip(Some(true)));
    assert_eq!(&flipped[0..3], &orig[3..6]);
    assert_eq!(&flipped[3..6], &orig[0..3]);
}

#[test]
fn flip_defaults_to_horizontal() {
    let img = mk_img(3, 2);
    assert_eq!(raw_pixels(&img.flip(None)), raw_pixels(&img.flip(Some(true))));
}

#[test]
fn crop_extracts_subrectangle() {
    let img = mk_img(3, 2);
    let (_, _, orig) = raw_pixels(&img);
    let c = img.crop(1, 0, 2, 2).unwrap();
    let (w, h, cropped) = raw_pixels(&c);
    assert_eq!((w, h), (2, 2));
    // Row 0 of the crop is columns 1..3 of row 0 of the source.
    assert_eq!(&cropped[0..6], &orig[3..9]);
}

#[test]
fn crop_out_of_bounds_fails() {
    let img = mk_img(3, 2);
    let r = img.crop(0, 0, 4, 2);
    assert!(matches!(r, Err(EngineError::ConstraintViolation(_))));
}

#[test]
fn crop_full_frame_is_identity() {
    let img = mk_img(3, 2);
    let c = img.crop(0, 0, 3, 2).unwrap();
    assert_eq!(raw_pixels(&img), raw_pixels(&c));
}

#[test]
fn crop_empty_rectangle_fails() {
    let img = mk_img(3, 2);
    assert!(matches!(img.crop(0, 0, 0, 1), Err(EngineError::ConstraintViolation(_))));
    assert!(matches!(img.crop(1, 1, 1, 0), Err(EngineError::ConstraintViolation(_))));
}

#[test]
fn resize_exact_has_exact_dimensions() {
    let img = mk_img(10, 5);
    let r = img.resize_exact(7, 3, None).unwrap();
    assert_eq!(r.dimensions(), vec![7, 3]);
}

#[test]
fn resize_fit_stays_within_box() {
    let img = mk_img(100, 50);
    let r = img.resize_to_fit(10, 10, None).unwrap();
    let d = r.dimensions();
    assert!(d[0] <= 10 && d[1] <= 10);
    assert_eq!(d, vec![10, 5]);
}

#[test]
fn resize_cover_has_exact_dimensions() {
    let img = mk_img(100, 50);
    let r = img.resize_to_cover(10, 10, None).unwrap();
    assert_eq!(r.dimensions(), vec![10, 10]);
}

#[test]
fn resize_rejects_invalid_filter() {
    let img = mk_img(4, 4);
    match img.resize_to_fit(2, 2, Some("bogus".to_string())) {
        Err(EngineError::Parse(ParseError::Filter(t))) => assert_eq!(t, "bogus"),
        other => panic!("{:?}", other.map(|i| i.dimensions())),
    }
}

#[test]
fn resize_accepts_every_filter() {
    let img = mk_img(8, 8);
    for f in ["nearest", "triangle", "catmullRom", "gaussian", "lanczos3"] {
        let r = img.resize_exact(4, 4, Some(f.to_string())).unwrap();
        assert_eq!(r.dimensions(), vec![4, 4]);
    }
}

#[test]
fn resize_is_deterministic() {
    let img = mk_img(9, 7);
    let a = img.resize_to_fit(5, 5, Some("triangle".to_string())).unwrap();
    let b = img.resize_to_fit(5, 5, Some("triangle".to_string())).unwrap();
    assert_eq!(raw_pixels(&a), raw_pixels(&b));
}

#[test]
fn absent_filter_matches_explicit_nearest() {
    let img = mk_img(9, 7);
    let defaulted = img.resize_exact(4, 3, None).unwrap();
    let explicit = img.resize_exact(4, 3, Some("nearest".to_string())).unwrap();
    assert_eq!(raw_pixels(&defaulted), raw_pixels(&explicit));
}

#[test]
fn resize_fit_keeps_aspect_within_one_pixel() {
    let img = mk_img(37, 23);
    let r = img.resize_to_fit(17, 17, None).unwrap();
    let d = r.dimensions();
    let (rw, rh) = (d[0] as i64, d[1] as i64);
    assert!((rw * 23 - rh * 37).abs() <= 37 + 23);
}

#[test]
fn transforms_leave_source_untouched() {
    let img = mk_img(4, 3);
    let before = raw_pixels(&img);
    let _ = img.rotate_quarter(1);
    let _ = img.flip(None);
    let _ = img.crop(0, 0, 2, 2).unwrap();
    let _ = img.resize_exact(2, 2, None).unwrap();
    assert_eq!(before, raw_pixels(&img));
}
