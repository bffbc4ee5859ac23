use image::DynamicImage;
use rasterkit::common::CommonImage;
use rasterkit::errors::EngineError;
use rasterkit::formats::{OutputKind, PnmKind};
use rasterkit::strategy::Filter;
use rasterkit::wrapper::ImageWrapper;

fn wimg(w: u32, h: u32) -> ImageWrapper {
    let mut data = Vec::new();
    for i in 0..(w * h * 3) {
        data.push((i % 250) as u8);
    }
    ImageWrapper::new(DynamicImage::ImageRgb8(image::RgbImage::from_raw(w, h, data).unwrap()))
}

#[test]
fn wrapper_rotate_and_flip_dimensions() {
    let w = wimg(4, 2);
    assert_eq!(w.rotate(1).dimensions(), (2, 4));
    assert_eq!(w.rotate(2).dimensions(), (4, 2));
    assert_eq!(w.rotate(0).dimensions(), (4, 2));
    assert_eq!(w.flip(true).dimensions(), (4, 2));
    assert_eq!(w.flip(false).dimensions(), (4, 2));
}

#[test]
fn wrapper_resize_family() {
    let w = wimg(40, 20);
    assert_eq!(w.resize_exact(7, 9, Filter::Nearest).dimensions(), (7, 9));
    assert_eq!(w.resize_to_fit(10, 10, Filter::Triangle).dimensions(), (10, 5));
    assert_eq!(w.resize_to_cover(10, 10, Filter::Lanczos3).dimensions(), (10, 10));
}

#[test]
fn wrapper_crop_checks_bounds() {
    let w = wimg(4, 4);
    assert_eq!(w.crop(1, 1, 3, 3).unwrap().dimensions(), (3, 3));
    assert!(matches!(w.crop(2, 2, 3, 3), Err(EngineError::ConstraintViolation(_))));
}

#[test]
fn wrapper_encodes_pnm_kinds() {
    let w = wimg(2, 2);
    let ppm = w.buffer(OutputKind::Pnm(PnmKind::Pixmap(true))).unwrap();
    assert_eq!(&ppm[0..2], b"P6");
    let ascii = w.buffer(OutputKind::Pnm(PnmKind::Pixmap(false))).unwrap();
    assert_eq!(&ascii[0..2], b"P3");
}

#[test]
fn ico_constraint_message_names_the_limit() {
    let mut data = Vec::new();
    for _ in 0..(300 * 300) {
        data.push(1u8);
        data.push(2u8);
        data.push(3u8);
    }
    let buf = image::RgbImage::from_raw(300, 300, data).unwrap();
    let img = CommonImage::new(ImageWrapper::new(DynamicImage::ImageRgb8(buf)));
    let err = img.to_ico(None).unwrap_err();
    assert_eq!(err.message(), "image size is too large for ico format, max size is 256x256");
}

#[test]
fn codec_failure_message_is_the_collaborators() {
    match rasterkit::loader::ImageLoader::auto_guess(vec![0, 1, 2]) {
        Err(EngineError::CodecFailure(m)) => assert!(!m.is_empty()),
        Err(other) => panic!("{:?}", other),
        Ok(_) => panic!("garbage bytes decoded"),
    }
}
