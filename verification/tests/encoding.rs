use image::DynamicImage;
use rasterkit::common::CommonImage;
use rasterkit::errors::{EngineError, ParseError};
use rasterkit::formats::OutputKind;
use rasterkit::wrapper::ImageWrapper;

fn sample_img(w: u32, h: u32) -> CommonImage {
    let mut data = Vec::new();
    for i in 0..(w * h) {
        data.push((i % 256) as u8);
        data.push((i / 7 % 256) as u8);
        data.push((i / 13 % 256) as u8);
    }
    let buf = image::RgbImage::from_raw(w, h, data).unwrap();
    CommonImage::new(ImageWrapper::new(DynamicImage::ImageRgb8(buf)))
}

fn sample_rgba(w: u32, h: u32) -> CommonImage {
    let mut data = Vec::new();
    for i in 0..(w * h) {
        data.push((i % 256) as u8);
        data.push((i / 5 % 256) as u8);
        data.push((i / 9 % 256) as u8);
        data.push(255);
    }
    let buf = image::RgbaImage::from_raw(w, h, data).unwrap();
    CommonImage::new(ImageWrapper::new(DynamicImage::ImageRgba8(buf)))
}

#[test]
fn ico_fallback_resizes_with_strategy() {
    let img = sample_rgba(512, 512);
    let bytes = img.to_ico(Some("exact_nearest".to_string())).unwrap();
    let d = image::load_from_memory_with_format(&bytes, image::ImageFormat::Ico).unwrap();
    assert_eq!((d.width(), d.height()), (256, 256));
}

#[test]
fn ico_fallback_fit_strategy() {
    let img = sample_rgba(512, 256);
    let bytes = img.to_ico(Some("fit_triangle".to_string())).unwrap();
    let d = image::load_from_memory_with_format(&bytes, image::ImageFormat::Ico).unwrap();
    assert_eq!((d.width(), d.height()), (256, 128));
}

#[test]
fn ico_fallback_cover_strategy() {
    let img = sample_rgba(512, 300);
    let bytes = img.to_ico(Some("cover_nearest".to_string())).unwrap();
    let d = image::load_from_memory_with_format(&bytes, image::ImageFormat::Ico).unwrap();
    assert_eq!((d.width(), d.height()), (256, 256));
}

#[test]
fn ico_too_large_without_strategy_fails() {
    let img = sample_img(512, 512);
    assert!(matches!(img.to_ico(None), Err(EngineError::ConstraintViolation(_))));
}

#[test]
fn ico_small_encodes_unchanged() {
    let img = sample_rgba(200, 200);
    let bytes = img.to_ico(None).unwrap();
    let d = image::load_from_memory_with_format(&bytes, image::ImageFormat::Ico).unwrap();
    assert_eq!((d.width(), d.height()), (200, 200));
}

#[test]
fn ico_invalid_strategy_fails() {
    let img = sample_img(512, 512);
    assert!(matches!(
        img.to_ico(Some("blah_nearest".to_string())),
        Err(EngineError::Parse(ParseError::Mode(_)))
    ));
}

#[test]
fn jpeg_quality_out_of_range_fails() {
    let img = sample_img(4, 4);
    assert!(matches!(img.to_jpeg(0), Err(EngineError::ConstraintViolation(_))));
    assert!(matches!(img.to_jpeg(101), Err(EngineError::ConstraintViolation(_))));
}

#[test]
fn jpeg_bytes_decode_to_same_dimensions() {
    let img = sample_img(16, 9);
    let bytes = img.to_jpeg(90).unwrap();
    let d = image::load_from_memory_with_format(&bytes, image::ImageFormat::Jpeg).unwrap();
    assert_eq!((d.width(), d.height()), (16, 9));
}

#[test]
fn png_bytes_carry_signature() {
    let img = sample_img(3, 3);
    let bytes = img.to_png().unwrap();
    assert_eq!(&bytes[0..4], &[0x89, b'P', b'N', b'G']);
}

#[test]
fn pnm_dispatch_selects_subtype() {
    let img = sample_img(3, 3);
    let ppm_bin = img.to_pnm("ppm".to_string(), Some(true)).unwrap();
    assert_eq!(&ppm_bin[0..2], b"P6");
    let ppm_ascii = img.to_pnm("ppm".to_string(), Some(false)).unwrap();
    assert_eq!(&ppm_ascii[0..2], b"P3");
    let pam = img.to_pnm("pam".to_string(), None).unwrap();
    assert_eq!(&pam[0..2], b"P7");
}

#[test]
fn pnm_dispatch_matches_direct_encoders() {
    let img = sample_img(3, 2);
    assert_eq!(
        img.to_pnm("ppm".to_string(), Some(true)).unwrap(),
        img.to_ppm(Some(true)).unwrap()
    );
    assert_eq!(img.to_pnm("pam".to_string(), None).unwrap(), img.to_pam().unwrap());
    let gray = {
        let buf = image::GrayImage::from_raw(2, 2, vec![0, 90, 180, 255]).unwrap();
        CommonImage::new(ImageWrapper::new(DynamicImage::ImageLuma8(buf)))
    };
    assert_eq!(
        gray.to_pnm("pgm".to_string(), Some(false)).unwrap(),
        gray.to_pgm(Some(false)).unwrap()
    );
}

#[test]
fn encoding_is_deterministic() {
    let img = sample_img(6, 4);
    assert_eq!(img.to_png().unwrap(), img.to_png().unwrap());
    assert_eq!(img.to_jpeg(80).unwrap(), img.to_jpeg(80).unwrap());
}

#[test]
fn pnm_unknown_subtype_fails() {
    let img = sample_img(3, 3);
    match img.to_pnm("xyz".to_string(), None) {
        Err(EngineError::Parse(ParseError::Subtype(t))) => assert_eq!(t, "xyz"),
        other => panic!("{:?}", other.map(|b| b.len())),
    }
}

#[test]
fn pgm_encodes_grayscale() {
    let buf = image::GrayImage::from_raw(2, 2, vec![0, 80, 160, 240]).unwrap();
    let img = CommonImage::new(ImageWrapper::new(DynamicImage::ImageLuma8(buf)));
    let bytes = img.to_pgm(Some(true)).unwrap();
    assert_eq!(&bytes[0..2], b"P5");
    let ascii = img.to_pgm(Some(false)).unwrap();
    assert_eq!(&ascii[0..2], b"P2");
}

#[test]
fn farbfeld_rejects_rgb8_layout() {
    // The farbfeld codec takes 16-bit RGBA samples only; the failure is the
    // collaborator's and is propagated as such.
    let img = sample_img(2, 2);
    assert!(matches!(img.to_farbfeld(), Err(EngineError::CodecFailure(_))));
}

#[test]
fn bmp_and_qoi_and_tga_and_tiff_and_gif_encode() {
    let img = sample_img(5, 4);
    for (bytes, fmt) in [
        (img.to_bmp().unwrap(), image::ImageFormat::Bmp),
        (img.to_qoi().unwrap(), image::ImageFormat::Qoi),
        (img.to_tga().unwrap(), image::ImageFormat::Tga),
        (img.to_tiff().unwrap(), image::ImageFormat::Tiff),
        (img.to_gif().unwrap(), image::ImageFormat::Gif),
    ] {
        let d = image::load_from_memory_with_format(&bytes, fmt).unwrap();
        assert_eq!((d.width(), d.height()), (5, 4));
    }
}

#[test]
fn openexr_takes_float_rasters() {
    let data: Vec<f32> = vec![0.0, 0.25, 0.5, 0.75, 1.0, 0.1];
    let buf: image::ImageBuffer<image::Rgb<f32>, Vec<f32>> =
        image::ImageBuffer::from_raw(2, 1, data).unwrap();
    let img = CommonImage::new(ImageWrapper::new(DynamicImage::ImageRgb32F(buf)));
    assert_eq!(img.color_type(), "rgb32f");
    let bytes = img.to_openexr().unwrap();
    let d = image::load_from_memory_with_format(&bytes, image::ImageFormat::OpenExr).unwrap();
    assert_eq!((d.width(), d.height()), (2, 1));
}

#[test]
fn wrapper_buffer_encodes_output_kind() {
    let buf = image::RgbImage::from_raw(2, 2, vec![9; 12]).unwrap();
    let w = ImageWrapper::new(DynamicImage::ImageRgb8(buf));
    let bytes = w.buffer(OutputKind::Png).unwrap();
    assert_eq!(&bytes[0..4], &[0x89, b'P', b'N', b'G']);
    assert!(matches!(
        w.buffer(OutputKind::Jpeg(0)),
        Err(EngineError::ConstraintViolation(_))
    ));
}
