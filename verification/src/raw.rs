//! The trusted boundary around the external codec collaborator.
//!
//! Everything the engine takes from the `image` crate passes through this
//! module: the opaque raster type, two names for what only the collaborator
//! can see of it (its pixel grid and its color layout), and one wrapper per
//! external call, each with the contract its source shows. Nothing else in
//! the crate is trusted.

use vstd::prelude::*;

use image::codecs::pnm::{PnmSubtype, SampleEncoding};
use image::GenericImageView;
use image::ImageOutputFormat;

use crate::color::ColorKind;
use crate::formats::{InputFormat, OutputKind, PnmKind};
use crate::grid::{
    flip_h_grid, flip_v_grid, grid_height, grid_width, is_rect, pixels_sized, rot180_grid,
    rot270_grid, rot90_grid, sub_grid, PixelGrid,
};
use crate::strategy::Filter;

verus! {

#[verifier::external_type_specification]
#[verifier::external_body]
pub struct ExDynamicImage(image::DynamicImage);

#[verifier::external_type_specification]
#[verifier::external_body]
pub struct ExImageFormat(image::ImageFormat);

#[verifier::external_type_specification]
#[verifier::external_body]
pub struct ExFilterType(image::imageops::FilterType);

/// The pixels of a raster held by the collaborator: the rows in row-major
/// order, each pixel the byte group of its samples.
pub uninterp spec fn img_grid(img: image::DynamicImage) -> PixelGrid;

/// The color layout of a raster held by the collaborator.
pub uninterp spec fn img_color(img: image::DynamicImage) -> ColorKind;

/// What `image::DynamicImage::write_to` computes: the encoded bytes of the
/// raster with these pixels and this layout in the given output format, or
/// the encoder's error text. The codec is deterministic — a function of the
/// raster and the format alone — and a raster with positive dimensions is
/// determined by its pixels and layout, so those name its outcome (the
/// encode wrappers admit only such rasters).
pub uninterp spec fn encoded_of(g: PixelGrid, c: ColorKind, k: OutputKind) -> Result<
    Seq<u8>,
    Seq<char>,
>;

/// What `image::load_from_memory` (hint `None`) and
/// `image::load_from_memory_with_format` (hint `Some`) compute from the
/// bytes alone: the decoded raster's pixels and layout, or the decoder's
/// error text.
pub uninterp spec fn decoded_of(bytes: Seq<u8>, format: Option<InputFormat>) -> Result<
    (PixelGrid, ColorKind),
    Seq<char>,
>;

/// What `image::DynamicImage::resize` computes: the pixels of the raster
/// scaled, aspect ratio preserved, to the largest size that fits within the
/// bounds — a function of the input raster, bounds and filter alone.
pub uninterp spec fn resized_fit_of(g: PixelGrid, c: ColorKind, nw: u32, nh: u32, f: Filter) -> PixelGrid;

/// What `image::DynamicImage::resize_to_fill` computes: the pixels of the
/// raster scaled to cover the bounds and center-cropped to exactly them — a
/// function of the input raster, bounds and filter alone.
pub uninterp spec fn resized_fill_of(g: PixelGrid, c: ColorKind, nw: u32, nh: u32, f: Filter) -> PixelGrid;

/// What `image::DynamicImage::resize_exact` computes: the pixels of the
/// raster resampled to exactly the bounds — a function of the input raster,
/// bounds and filter alone.
pub uninterp spec fn resized_exact_of(g: PixelGrid, c: ColorKind, nw: u32, nh: u32, f: Filter) -> PixelGrid;

/// The model invariant of every raster the collaborator returns: the grid is
/// rectangular, its dimensions fit in `u32`, the layout is one of the ten
/// the collaborator's raster variants can carry, and every pixel holds
/// exactly the layout's bytes per pixel.
pub open spec fn img_wf(img: image::DynamicImage) -> bool {
    &&& is_rect(img_grid(img))
    &&& grid_width(img_grid(img)) <= u32::MAX
    &&& grid_height(img_grid(img)) <= u32::MAX
    &&& img_color(img) != ColorKind::Unknown
    &&& pixels_sized(img_grid(img), img_color(img).spec_bytes_per_pixel())
}

/// A cover resize under these bounds never produces an intermediate raster
/// whose dimensions leave `u32`, so the collaborator's dimension math is
/// exact and its center-crop stays in bounds.
pub open spec fn cover_safe(w: nat, h: nat, nw: nat, nh: nat) -> bool {
    &&& w * nh <= (u32::MAX - 1) * h
    &&& h * nw <= (u32::MAX - 1) * w
}

/// Relies on `image::GenericImageView::dimensions`: the width and height of
/// the raster in pixels. The height is the grid's row count; the width is
/// its column count whenever there is a row to read it from — a raster with
/// zero height has an empty grid whatever its stored width, so the grid
/// only shows *that* a dimension is zero, not which.
#[verifier::external_body]
pub(crate) fn dims_raw(img: &image::DynamicImage) -> (r: (u32, u32))
    ensures
        r.1 as nat == grid_height(img_grid(*img)),
        r.1 >= 1 ==> r.0 as nat == grid_width(img_grid(*img)),
        (r.0 == 0 || r.1 == 0) <==> (grid_width(img_grid(*img)) == 0 || grid_height(
            img_grid(*img),
        ) == 0),
{
    img.dimensions()
}

/// Relies on `image::DynamicImage::color`: each of the ten raster variants
/// reports its color type, mapped here one for one onto the engine's layouts.
#[verifier::external_body]
pub(crate) fn color_raw(img: &image::DynamicImage) -> (r: ColorKind)
    ensures
        r == img_color(*img),
{
    match img.color() {
        image::ColorType::L8 => ColorKind::L8, image::ColorType::La8 => ColorKind::La8,
        image::ColorType::Rgb8 => ColorKind::Rgb8, image::ColorType::Rgba8 => ColorKind::Rgba8,
        image::ColorType::L16 => ColorKind::L16, image::ColorType::La16 => ColorKind::La16,
        image::ColorType::Rgb16 => ColorKind::Rgb16, image::ColorType::Rgba16 => ColorKind::Rgba16,
        image::ColorType::Rgb32F => ColorKind::Rgb32F, image::ColorType::Rgba32F => ColorKind::Rgba32F,
        _ => ColorKind::Unknown,
    }
}

/// Relies on `image::DynamicImage::clone`: an independent copy of the same
/// raster, pixel for pixel.
#[verifier::external_body]
pub(crate) fn clone_raw(img: &image::DynamicImage) -> (r: image::DynamicImage)
    ensures
        img_grid(r) == img_grid(*img),
        img_color(r) == img_color(*img),
{
    img.clone()
}

/// Relies on `image::DynamicImage::fliph` (`imageops::flip_horizontal`): the
/// pixel at column `x` of each row moves to column `width - 1 - x`.
#[verifier::external_body]
pub(crate) fn fliph_raw(img: &image::DynamicImage) -> (r: image::DynamicImage)
    ensures
        img_grid(r) == flip_h_grid(img_grid(*img)),
        img_color(r) == img_color(*img),
{
    img.fliph()
}

/// Relies on `image::DynamicImage::flipv` (`imageops::flip_vertical`): the
/// pixel in row `y` of each column moves to row `height - 1 - y`.
#[verifier::external_body]
pub(crate) fn flipv_raw(img: &image::DynamicImage) -> (r: image::DynamicImage)
    ensures
        img_grid(r) == flip_v_grid(img_grid(*img)),
        img_color(r) == img_color(*img),
{
    img.flipv()
}

/// Relies on `image::DynamicImage::rotate90` (`imageops::rotate90`): the
/// pixel at column `x` of row `y` moves to column `height - 1 - y` of row `x`.
#[verifier::external_body]
pub(crate) fn rot90_raw(img: &image::DynamicImage) -> (r: image::DynamicImage)
    ensures
        img_grid(r) == rot90_grid(img_grid(*img)),
        img_color(r) == img_color(*img),
{
    img.rotate90()
}

/// Relies on `image::DynamicImage::rotate180` (`imageops::rotate180`): the
/// pixel at column `x` of row `y` moves to column `width - 1 - x` of row
/// `height - 1 - y`.
#[verifier::external_body]
pub(crate) fn rot180_raw(img: &image::DynamicImage) -> (r: image::DynamicImage)
    ensures
        img_grid(r) == rot180_grid(img_grid(*img)),
        img_color(r) == img_color(*img),
{
    img.rotate180()
}

/// Relies on `image::DynamicImage::rotate270` (`imageops::rotate270`): the
/// pixel at column `x` of row `y` moves to column `y` of row `width - 1 - x`.
#[verifier::external_body]
pub(crate) fn rot270_raw(img: &image::DynamicImage) -> (r: image::DynamicImage)
    ensures
        img_grid(r) == rot270_grid(img_grid(*img)),
        img_color(r) == img_color(*img),
{
    img.rotate270()
}

/// Relies on `image::DynamicImage::crop_imm` (`imageops::crop_imm`): for a
/// non-empty rectangle that lies within the raster, the exact
/// sub-rectangle is copied out; its clamping never engages under this
/// precondition, and the result keeps both dimensions positive.
#[verifier::external_body]
pub(crate) fn crop_raw(img: &image::DynamicImage, x: u32, y: u32, w: u32, h: u32) -> (r:
    image::DynamicImage)
    requires
        x + w <= grid_width(img_grid(*img)),
        y + h <= grid_height(img_grid(*img)),
        w >= 1,
        h >= 1,
    ensures
        img_grid(r) == sub_grid(img_grid(*img), x as nat, y as nat, w as nat, h as nat),
        img_color(r) == img_color(*img),
{
    img.crop_imm(x, y, w, h)
}

/// Relies on `image::imageops::FilterType`: the engine's five filters name
/// the collaborator's five resampling kernels, one for one.
#[verifier::external_body]
pub(crate) fn filter_raw(f: &Filter) -> image::imageops::FilterType {
    match f {
        Filter::Nearest => image::imageops::FilterType::Nearest,
        Filter::Triangle => image::imageops::FilterType::Triangle,
        Filter::CatmullRom => image::imageops::FilterType::CatmullRom,
        Filter::Gaussian => image::imageops::FilterType::Gaussian,
        Filter::Lanczos3 => image::imageops::FilterType::Lanczos3,
    }
}

/// Relies on `image::DynamicImage::resize_exact`: the output raster has
/// exactly the requested dimensions and the same raster variant as the
/// input; the filter affects only how samples are interpolated, and the
/// result is the deterministic [`resized_exact_of`] of its arguments.
#[verifier::external_body]
pub(crate) fn resize_exact_raw(img: &image::DynamicImage, nw: u32, nh: u32, filter: &Filter) -> (r:
    image::DynamicImage)
    requires
        nw >= 1,
        nh >= 1,
        grid_width(img_grid(*img)) >= 1,
        grid_height(img_grid(*img)) >= 1,
    ensures
        img_wf(r),
        grid_width(img_grid(r)) == nw,
        grid_height(img_grid(r)) == nh,
        img_color(r) == img_color(*img),
        img_grid(r) == resized_exact_of(img_grid(*img), img_color(*img), nw, nh, *filter),
{
    img.resize_exact(nw, nh, filter_raw(filter))
}

/// Relies on `image::DynamicImage::resize` (`math::resize_dimensions` with
/// `fill == false`): the aspect ratio is preserved and the output is the
/// largest raster that fits within the bounds, so it meets at least one of
/// them and exceeds neither. Both output dimensions round the same scale
/// factor, each by at most half a pixel (or up to one pixel where the
/// rounding is clamped up to 1), so the cross products of the output and
/// source dimensions differ by no more than the sum of the source
/// dimensions. The result is the deterministic [`resized_fit_of`] of its
/// arguments.
#[verifier::external_body]
pub(crate) fn resize_fit_raw(img: &image::DynamicImage, nw: u32, nh: u32, filter: &Filter) -> (r:
    image::DynamicImage)
    requires
        nw >= 1,
        nh >= 1,
        grid_width(img_grid(*img)) >= 1,
        grid_height(img_grid(*img)) >= 1,
    ensures
        img_wf(r),
        1 <= grid_width(img_grid(r)) <= nw,
        1 <= grid_height(img_grid(r)) <= nh,
        grid_width(img_grid(r)) == nw || grid_height(img_grid(r)) == nh,
        grid_width(img_grid(r)) * grid_height(img_grid(*img)) - grid_height(img_grid(r))
            * grid_width(img_grid(*img)) <= grid_width(img_grid(*img)) + grid_height(
            img_grid(*img),
        ),
        grid_height(img_grid(r)) * grid_width(img_grid(*img)) - grid_width(img_grid(r))
            * grid_height(img_grid(*img)) <= grid_width(img_grid(*img)) + grid_height(
            img_grid(*img),
        ),
        img_color(r) == img_color(*img),
        img_grid(r) == resized_fit_of(img_grid(*img), img_color(*img), nw, nh, *filter),
{
    img.resize(nw, nh, filter_raw(filter))
}

/// Relies on `image::DynamicImage::resize_to_fill` (`math::resize_dimensions`
/// with `fill == true`): the raster is scaled to the smallest size that
/// covers the bounds, then center-cropped to exactly the bounds. Under
/// [`cover_safe`] the intermediate dimensions stay within `u32`, so the
/// overflow clamp in the collaborator's dimension math never engages. The
/// result is the deterministic [`resized_fill_of`] of its arguments.
#[verifier::external_body]
pub(crate) fn resize_fill_raw(img: &image::DynamicImage, nw: u32, nh: u32, filter: &Filter) -> (r:
    image::DynamicImage)
    requires
        nw >= 1,
        nh >= 1,
        grid_width(img_grid(*img)) >= 1,
        grid_height(img_grid(*img)) >= 1,
        cover_safe(
            grid_width(img_grid(*img)),
            grid_height(img_grid(*img)),
            nw as nat,
            nh as nat,
        ),
    ensures
        img_wf(r),
        grid_width(img_grid(r)) == nw,
        grid_height(img_grid(r)) == nh,
        img_color(r) == img_color(*img),
        img_grid(r) == resized_fill_of(img_grid(*img), img_color(*img), nw, nh, *filter),
{
    img.resize_to_fill(nw, nh, filter_raw(filter))
}

/// Relies on `image::load_from_memory` and
/// `image::load_from_memory_with_format`: without a hint the container
/// format is sniffed from the bytes; with one, the bytes are decoded
/// strictly as that format. Either way the result is the deterministic
/// [`decoded_of`] of the bytes and the hint: on success a raster with those
/// pixels and that layout, satisfying the model invariant; on failure the
/// decoder's own message, unchanged.
#[verifier::external_body]
pub(crate) fn decode_raw(buffer: &Vec<u8>, format: &Option<InputFormat>) -> (r: Result<
    image::DynamicImage,
    String,
>)
    ensures
        r is Ok <==> decoded_of(buffer@, *format) is Ok,
        r matches Ok(img) ==> {
            &&& img_wf(img)
            &&& img_grid(img) == decoded_of(buffer@, *format)->Ok_0.0
            &&& img_color(img) == decoded_of(buffer@, *format)->Ok_0.1
        },
        r matches Err(m) ==> m@ == decoded_of(buffer@, *format)->Err_0,
{
    match format {
        None => image::load_from_memory(buffer),
        Some(f) => image::load_from_memory_with_format(buffer, input_format_raw(f)),
    }.map_err(|e| e.to_string())
}

/// Relies on `image::ImageFormat`: the engine's input formats name the
/// collaborator's container formats, one for one.
#[verifier::external_body]
pub(crate) fn input_format_raw(f: &InputFormat) -> image::ImageFormat {
    match f {
        InputFormat::Png => image::ImageFormat::Png, InputFormat::Jpeg => image::ImageFormat::Jpeg,
        InputFormat::Gif => image::ImageFormat::Gif, InputFormat::WebP => image::ImageFormat::WebP,
        InputFormat::Pnm => image::ImageFormat::Pnm, InputFormat::Tiff => image::ImageFormat::Tiff,
        InputFormat::Tga => image::ImageFormat::Tga, InputFormat::Dds => image::ImageFormat::Dds,
        InputFormat::Bmp => image::ImageFormat::Bmp, InputFormat::Ico => image::ImageFormat::Ico,
        InputFormat::Hdr => image::ImageFormat::Hdr, InputFormat::Avif => image::ImageFormat::Avif,
        InputFormat::OpenExr => image::ImageFormat::OpenExr, InputFormat::Qoi => image::ImageFormat::Qoi,
        InputFormat::Farbfeld => image::ImageFormat::Farbfeld,
    }
}

/// A container format without format-specific options.
#[derive(Clone, Copy, Debug, PartialEq, Eq, Structural)]
pub(crate) enum PlainKind {
    Png,
    Gif,
    Ico,
    Bmp,
    Farbfeld,
    Tga,
    OpenExr,
    Tiff,
    Qoi,
}

/// The output format an option-free format tag stands for.
pub(crate) open spec fn plain_to_output(k: PlainKind) -> OutputKind {
    match k {
        PlainKind::Png => OutputKind::Png,
        PlainKind::Gif => OutputKind::Gif,
        PlainKind::Ico => OutputKind::Ico,
        PlainKind::Bmp => OutputKind::Bmp,
        PlainKind::Farbfeld => OutputKind::Farbfeld,
        PlainKind::Tga => OutputKind::Tga,
        PlainKind::OpenExr => OutputKind::OpenExr,
        PlainKind::Tiff => OutputKind::Tiff,
        PlainKind::Qoi => OutputKind::Qoi,
    }
}

/// Relies on `image::DynamicImage::write_to`: encodes the raster into the
/// given container format in memory, or reports the encoder's error
/// message. The outcome is the deterministic [`encoded_of`] of the raster
/// and the format.
#[verifier::external_body]
pub(crate) fn encode_plain(img: &image::DynamicImage, kind: &PlainKind) -> (r: Result<
    Vec<u8>,
    String,
>)
    requires
        grid_width(img_grid(*img)) >= 1,
        grid_height(img_grid(*img)) >= 1,
    ensures
        r is Ok <==> encoded_of(img_grid(*img), img_color(*img), plain_to_output(*kind)) is Ok,
        r matches Ok(b) ==> b@ == encoded_of(
            img_grid(*img),
            img_color(*img),
            plain_to_output(*kind),
        )->Ok_0,
        r matches Err(m) ==> m@ == encoded_of(
            img_grid(*img),
            img_color(*img),
            plain_to_output(*kind),
        )->Err_0,
{
    let fmt = match kind {
        PlainKind::Png => ImageOutputFormat::Png, PlainKind::Gif => ImageOutputFormat::Gif,
        PlainKind::Ico => ImageOutputFormat::Ico, PlainKind::Bmp => ImageOutputFormat::Bmp,
        PlainKind::Farbfeld => ImageOutputFormat::Farbfeld, PlainKind::Tga => ImageOutputFormat::Tga,
        PlainKind::OpenExr => ImageOutputFormat::OpenExr, PlainKind::Tiff => ImageOutputFormat::Tiff,
        PlainKind::Qoi => ImageOutputFormat::Qoi,
    };
    let mut buf = std::io::Cursor::new(Vec::new());
    match img.write_to(&mut buf, fmt) { Ok(()) => Ok(buf.into_inner()), Err(e) => Err(e.to_string()) }
}

/// Relies on `image::DynamicImage::write_to` with `ImageOutputFormat::Jpeg`:
/// encodes the raster as a JPEG at the given quality. The outcome is the
/// deterministic [`encoded_of`] of the raster and the format.
#[verifier::external_body]
pub(crate) fn encode_jpeg(img: &image::DynamicImage, quality: u8) -> (r: Result<Vec<u8>, String>)
    requires
        1 <= quality <= 100,
        grid_width(img_grid(*img)) >= 1,
        grid_height(img_grid(*img)) >= 1,
    ensures
        r is Ok <==> encoded_of(img_grid(*img), img_color(*img), OutputKind::Jpeg(quality)) is Ok,
        r matches Ok(b) ==> b@ == encoded_of(
            img_grid(*img),
            img_color(*img),
            OutputKind::Jpeg(quality),
        )->Ok_0,
        r matches Err(m) ==> m@ == encoded_of(
            img_grid(*img),
            img_color(*img),
            OutputKind::Jpeg(quality),
        )->Err_0,
{
    let mut buf = std::io::Cursor::new(Vec::new());
    match img.write_to(&mut buf, ImageOutputFormat::Jpeg(quality)) {
        Ok(()) => Ok(buf.into_inner()),
        Err(e) => Err(e.to_string()),
    }
}

/// Relies on `image::DynamicImage::write_to` with `ImageOutputFormat::Pnm`:
/// encodes the raster into the given PNM subtype and sample encoding. The
/// outcome is the deterministic [`encoded_of`] of the raster and the format.
#[verifier::external_body]
pub(crate) fn encode_pnm(img: &image::DynamicImage, kind: &PnmKind) -> (r: Result<Vec<u8>, String>)
    requires
        grid_width(img_grid(*img)) >= 1,
        grid_height(img_grid(*img)) >= 1,
    ensures
        r is Ok <==> encoded_of(img_grid(*img), img_color(*img), OutputKind::Pnm(*kind)) is Ok,
        r matches Ok(b) ==> b@ == encoded_of(
            img_grid(*img),
            img_color(*img),
            OutputKind::Pnm(*kind),
        )->Ok_0,
        r matches Err(m) ==> m@ == encoded_of(
            img_grid(*img),
            img_color(*img),
            OutputKind::Pnm(*kind),
        )->Err_0,
{
    let sub = match kind {
        PnmKind::Bitmap(true) => PnmSubtype::Bitmap(SampleEncoding::Binary),
        PnmKind::Bitmap(false) => PnmSubtype::Bitmap(SampleEncoding::Ascii),
        PnmKind::Graymap(true) => PnmSubtype::Graymap(SampleEncoding::Binary),
        PnmKind::Graymap(false) => PnmSubtype::Graymap(SampleEncoding::Ascii),
        PnmKind::Pixmap(true) => PnmSubtype::Pixmap(SampleEncoding::Binary),
        PnmKind::Pixmap(false) => PnmSubtype::Pixmap(SampleEncoding::Ascii),
        PnmKind::Arbitrary => PnmSubtype::ArbitraryMap,
    };
    let mut buf = std::io::Cursor::new(Vec::new());
    match img.write_to(&mut buf, ImageOutputFormat::Pnm(sub)) {
        Ok(()) => Ok(buf.into_inner()),
        Err(e) => Err(e.to_string()),
    }
}

} // verus!
