use image::DynamicImage;
use rasterkit::color::ColorKind;
use rasterkit::common::CommonImage;
use rasterkit::wrapper::ImageWrapper;

fn from_dynamic(img: DynamicImage) -> CommonImage {
    CommonImage::new(ImageWrapper::new(img))
}

#[test]
fn rgb8_layout_reports() {
    let buf = image::RgbImage::from_raw(2, 2, vec![
        255, 0, 0, 0, 255, 0, 0, 0, 255, 255, 255, 0,
    ])
    .unwrap();
    let img = from_dynamic(DynamicImage::ImageRgb8(buf));
    assert_eq!(img.color_type(), "rgb8");
    assert_eq!(img.bpp(), 24);
    assert_eq!(img.dimensions(), vec![2, 2]);
}

#[test]
fn rgba8_layout_reports() {
    let buf = image::RgbaImage::from_raw(1, 1, vec![1, 2, 3, 4]).unwrap();
    let img = from_dynamic(DynamicImage::ImageRgba8(buf));
    assert_eq!(img.color_type(), "rgba8");
    assert_eq!(img.bpp(), 32);
}

#[test]
fn l8_layout_reports() {
    let buf = image::GrayImage::from_raw(3, 1, vec![10, 20, 30]).unwrap();
    let img = from_dynamic(DynamicImage::ImageLuma8(buf));
    assert_eq!(img.color_type(), "l8");
    assert_eq!(img.bpp(), 8);
}

#[test]
fn l16_layout_reports() {
    let buf: image::ImageBuffer<image::Luma<u16>, Vec<u16>> =
        image::ImageBuffer::from_raw(1, 1, vec![1000]).unwrap();
    let img = from_dynamic(DynamicImage::ImageLuma16(buf));
    assert_eq!(img.color_type(), "l16");
    assert_eq!(img.bpp(), 16);
}

#[test]
fn color_kind_channels_and_depth() {
    assert_eq!(ColorKind::Rgb8.channels(), 3);
    assert_eq!(ColorKind::Rgb8.depth(), 8);
    assert!(!ColorKind::Rgb8.has_alpha());
    assert_eq!(ColorKind::La8.channels(), 2);
    assert!(ColorKind::La8.has_alpha());
    assert!(ColorKind::Rgba16.has_alpha());
    assert_eq!(ColorKind::Rgba16.bits_per_pixel(), 64);
    assert_eq!(ColorKind::Rgba32F.bits_per_pixel(), 128);
    assert_eq!(ColorKind::L16.bits_per_pixel(), 16);
    assert_eq!(ColorKind::La16.name(), "la16");
    assert_eq!(ColorKind::Rgb32F.name(), "rgb32f");
}

#[test]
fn wrapper_reports_color_and_bpp() {
    let buf = image::RgbImage::from_raw(1, 1, vec![7, 8, 9]).unwrap();
    let w = ImageWrapper::new(DynamicImage::ImageRgb8(buf));
    assert_eq!(w.color(), ColorKind::Rgb8);
    assert_eq!(w.bits_per_pixel(), 24);
    assert_eq!(w.dimensions(), (1, 1));
}
