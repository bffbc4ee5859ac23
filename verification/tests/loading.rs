use image::DynamicImage;
use rasterkit::common::CommonImage;
use rasterkit::errors::EngineError;
use rasterkit::formats::InputFormat;
use rasterkit::loader::ImageLoader;
use rasterkit::wrapper::ImageWrapper;

fn png_bytes(w: u32, h: u32) -> Vec<u8> {
    let buf = image::RgbImage::from_raw(w, h, vec![100; (w * h * 3) as usize]).unwrap();
    CommonImage::new(ImageWrapper::new(DynamicImage::ImageRgb8(buf))).to_png().unwrap()
}

#[test]
fn from_png_decodes() {
    let img = ImageLoader::from_png(png_bytes(6, 4)).unwrap();
    assert_eq!(img.dimensions(), vec![6, 4]);
    assert_eq!(img.color_type(), "rgb8");
}

#[test]
fn auto_guess_sniffs_format() {
    let img = ImageLoader::auto_guess(png_bytes(2, 3)).unwrap();
    assert_eq!(img.dimensions(), vec![2, 3]);
}

#[test]
fn from_jpeg_rejects_png_bytes() {
    assert!(matches!(
        ImageLoader::from_jpeg(png_bytes(2, 2)),
        Err(EngineError::CodecFailure(_))
    ));
}

#[test]
fn garbage_bytes_fail_loudly() {
    assert!(matches!(
        ImageLoader::auto_guess(vec![1, 2, 3, 4]),
        Err(EngineError::CodecFailure(_))
    ));
}

#[test]
fn bmp_roundtrip_through_loader() {
    let buf = image::RgbImage::from_raw(3, 5, vec![50; 45]).unwrap();
    let bmp = CommonImage::new(ImageWrapper::new(DynamicImage::ImageRgb8(buf))).to_bmp().unwrap();
    let img = ImageLoader::from_bmp(bmp).unwrap();
    assert_eq!(img.dimensions(), vec![3, 5]);
}

#[test]
fn qoi_roundtrip_through_loader() {
    let buf = image::RgbImage::from_raw(2, 2, vec![5; 12]).unwrap();
    let qoi = CommonImage::new(ImageWrapper::new(DynamicImage::ImageRgb8(buf))).to_qoi().unwrap();
    let img = ImageLoader::from_qoi(qoi).unwrap();
    assert_eq!(img.dimensions(), vec![2, 2]);
}

#[test]
fn wrapper_load_with_explicit_format() {
    let w = ImageWrapper::load(png_bytes(4, 4), Some(InputFormat::Png)).unwrap();
    assert_eq!(w.dimensions(), (4, 4));
    let sniffed = ImageWrapper::load(png_bytes(4, 4), None).unwrap();
    assert_eq!(sniffed.dimensions(), (4, 4));
}

#[test]
fn wrapper_load_rejects_mismatched_format() {
    assert!(ImageWrapper::load(png_bytes(2, 2), Some(InputFormat::Gif)).is_err());
}
