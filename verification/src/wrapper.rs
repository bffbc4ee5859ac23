//! The canonical in-memory image and its transform and encode operations.
//!
//! An [`ImageWrapper`] owns one decoded raster. Every transform is pure: it
//! returns a new, independently owned image and leaves the receiver
//! untouched, so callers may share an image freely across repeated
//! attempts. The contracts state each operation's effect on the pixel grid
//! model of [`crate::grid`].

use vstd::prelude::*;

use crate::color::ColorKind;
use crate::errors::EngineError;
use crate::formats::{quality_ok, InputFormat, OutputKind};
use crate::grid::{
    flip_h_grid, flip_v_grid, grid_height, grid_width, is_rect, lemma_flip_h_wf, lemma_flip_v_wf,
    lemma_rot180_wf, lemma_rot270_wf, lemma_rot90_wf, lemma_sub_grid_wf, pixels_sized,
    rot180_grid, rot270_grid, rot90_grid, sub_grid, PixelGrid,
};
use crate::raw;
use crate::raw::{cover_safe, decoded_of, encoded_of, img_color, img_grid, img_wf,
    resized_exact_of, resized_fill_of, resized_fit_of};
use crate::strategy::Filter;

verus! {

/// The result `r` is exactly the outcome of encoding a raster with pixels
/// `g` and layout `c` into format `k`: it succeeds if and only if the codec
/// does, a success carries the codec's bytes, and a failure carries the
/// codec's message, propagated opaquely.
pub open spec fn encode_post(
    g: PixelGrid,
    c: ColorKind,
    k: OutputKind,
    r: Result<Vec<u8>, EngineError>,
) -> bool {
    &&& (r is Ok <==> encoded_of(g, c, k) is Ok)
    &&& (r matches Ok(b) ==> b@ == encoded_of(g, c, k)->Ok_0)
    &&& (r matches Err(e) ==> e matches EngineError::CodecFailure(m) && m@ == encoded_of(
        g,
        c,
        k,
    )->Err_0)
}

/// A decoded raster with its color and depth metadata: the canonical image
/// every transform operates on and every encoder consumes.
pub struct ImageWrapper {
    /// The collaborator's raster value.
    dyn_image: image::DynamicImage,
}

impl ImageWrapper {
    /// The pixel grid of the image.
    pub closed spec fn grid(&self) -> PixelGrid {
        img_grid(self.dyn_image)
    }

    /// The color layout of the image.
    pub closed spec fn layout(&self) -> ColorKind {
        img_color(self.dyn_image)
    }

    /// The width of the image in pixels.
    pub open spec fn width(&self) -> nat {
        grid_width(self.grid())
    }

    /// The height of the image in pixels.
    pub open spec fn height(&self) -> nat {
        grid_height(self.grid())
    }

    /// A valid image: the raster model invariant holds and both dimensions
    /// are positive.
    pub closed spec fn wf(&self) -> bool {
        &&& img_wf(self.dyn_image)
        &&& self.width() >= 1
        &&& self.height() >= 1
    }

    /// What validity gives of the model: a rectangular grid with positive
    /// dimensions that fit in `u32`, a known layout, and one byte group of
    /// the layout's size per pixel.
    pub proof fn lemma_wf(&self)
        requires
            self.wf(),
        ensures
            is_rect(self.grid()),
            1 <= self.width() <= u32::MAX,
            1 <= self.height() <= u32::MAX,
            self.layout() != ColorKind::Unknown,
            pixels_sized(self.grid(), self.layout().spec_bytes_per_pixel()),
    {
    }

    /// Wrap a raster produced by the collaborator.
    pub fn new(inner: image::DynamicImage) -> (r: Self)
        ensures
            r.grid() == img_grid(inner),
            r.layout() == img_color(inner),
            r.wf() == (img_wf(inner) && grid_width(img_grid(inner)) >= 1 && grid_height(
                img_grid(inner),
            ) >= 1),
    {
        ImageWrapper { dyn_image: inner }
    }

    /// Decode an image from bytes, with a specified or sniffed container
    /// format. Succeeds exactly when the decoder does and the decoded
    /// raster has pixels, yielding that raster; fails with the decoder's
    /// message, propagated opaquely, or rejects a decoded raster with no
    /// pixels.
    pub fn load(buffer: Vec<u8>, format: Option<InputFormat>) -> (r: Result<Self, EngineError>)
        ensures
            match r {
                Ok(img) => {
                    &&& decoded_of(buffer@, format) is Ok
                    &&& img.wf()
                    &&& img.grid() == decoded_of(buffer@, format)->Ok_0.0
                    &&& img.layout() == decoded_of(buffer@, format)->Ok_0.1
                },
                Err(e) => {
                    ||| ({
                        &&& decoded_of(buffer@, format) is Err
                        &&& e matches EngineError::CodecFailure(m)
                        &&& m@ == decoded_of(buffer@, format)->Err_0
                    })
                    ||| ({
                        &&& decoded_of(buffer@, format) is Ok
                        &&& (grid_width(decoded_of(buffer@, format)->Ok_0.0) == 0 || grid_height(
                            decoded_of(buffer@, format)->Ok_0.0,
                        ) == 0)
                        &&& e matches EngineError::CodecFailure(m)
                        &&& m@ == "decoded image has zero width or height"@
                    })
                },
            },
    {
        match raw::decode_raw(&buffer, &format) {
            Err(msg) => Err(EngineError::CodecFailure(msg)),
            Ok(img) => {
                let (w, h) = raw::dims_raw(&img);
                if w == 0 || h == 0 {
                    Err(
                        EngineError::CodecFailure(
                            "decoded image has zero width or height".to_owned(),
                        ),
                    )
                } else {
                    Ok(ImageWrapper { dyn_image: img })
                }
            },
        }
    }

    /// The dimensions of the image, in pixels: `(width, height)`.
    pub fn dimensions(&self) -> (r: (u32, u32))
        requires
            self.wf(),
        ensures
            r.0 as nat == self.width(),
            r.1 as nat == self.height(),
    {
        raw::dims_raw(&self.dyn_image)
    }

    /// The color layout of the image.
    pub fn color(&self) -> (r: ColorKind)
        ensures
            r == self.layout(),
    {
        raw::color_raw(&self.dyn_image)
    }

    /// Bits of information stored per pixel: channel depth times channel count.
    pub fn bits_per_pixel(&self) -> (r: u16)
        ensures
            r == self.layout().spec_depth() * self.layout().spec_channels(),
    {
        let c = self.color();
        c.bits_per_pixel()
    }

    /// Resize preserving the aspect ratio, to the largest size that fits
    /// within `nw` by `nh`: the result meets at least one bound, exceeds
    /// neither, and keeps the source aspect ratio within one pixel of
    /// rounding on either axis (the cross products of the output and source
    /// dimensions differ by no more than the sum of the source dimensions).
    pub fn resize_to_fit(&self, nw: u32, nh: u32, filter: Filter) -> (r: Self)
        requires
            self.wf(),
            nw >= 1,
            nh >= 1,
        ensures
            r.wf(),
            r.layout() == self.layout(),
            1 <= r.width() <= nw,
            1 <= r.height() <= nh,
            r.width() == nw || r.height() == nh,
            r.width() * self.height() - r.height() * self.width() <= self.width() + self.height(),
            r.height() * self.width() - r.width() * self.height() <= self.width() + self.height(),
            r.grid() == resized_fit_of(self.grid(), self.layout(), nw, nh, filter),
    {
        ImageWrapper { dyn_image: raw::resize_fit_raw(&self.dyn_image, nw, nh, &filter) }
    }

    /// Resize preserving the aspect ratio, to the smallest size that covers
    /// `nw` by `nh`, then center-crop to exactly `nw` by `nh`; the pixels
    /// are the deterministic cover-resize of the source.
    pub fn resize_to_cover(&self, nw: u32, nh: u32, filter: Filter) -> (r: Self)
        requires
            self.wf(),
            nw >= 1,
            nh >= 1,
            cover_safe(self.width(), self.height(), nw as nat, nh as nat),
        ensures
            r.wf(),
            r.layout() == self.layout(),
            r.width() == nw,
            r.height() == nh,
            r.grid() == resized_fill_of(self.grid(), self.layout(), nw, nh, filter),
    {
        ImageWrapper { dyn_image: raw::resize_fill_raw(&self.dyn_image, nw, nh, &filter) }
    }

    /// Resize without preserving the aspect ratio: the result is exactly
    /// `nw` by `nh`, with the deterministic exact-resize of the source's
    /// pixels.
    pub fn resize_exact(&self, nw: u32, nh: u32, filter: Filter) -> (r: Self)
        requires
            self.wf(),
            nw >= 1,
            nh >= 1,
        ensures
            r.wf(),
            r.layout() == self.layout(),
            r.width() == nw,
            r.height() == nh,
            r.grid() == resized_exact_of(self.grid(), self.layout(), nw, nh, filter),
    {
        ImageWrapper { dyn_image: raw::resize_exact_raw(&self.dyn_image, nw, nh, &filter) }
    }

    /// Rotate clockwise by `quarter` times 90 degrees; the count is taken
    /// modulo 4, and a count of zero copies the image unchanged. An exact
    /// pixel permutation: no resampling.
    pub fn rotate(&self, quarter: u8) -> (r: Self)
        requires
            self.wf(),
        ensures
            r.wf(),
            r.layout() == self.layout(),
            quarter % 4 == 0 ==> r.grid() == self.grid(),
            quarter % 4 == 1 ==> r.grid() == rot90_grid(self.grid()),
            quarter % 4 == 2 ==> r.grid() == rot180_grid(self.grid()),
            quarter % 4 == 3 ==> r.grid() == rot270_grid(self.grid()),
    {
        let q = quarter % 4;
        let out = if q == 1 {
            raw::rot90_raw(&self.dyn_image)
        } else if q == 2 {
            raw::rot180_raw(&self.dyn_image)
        } else if q == 3 {
            raw::rot270_raw(&self.dyn_image)
        } else {
            raw::clone_raw(&self.dyn_image)
        };
        proof {
            let n = self.layout().spec_bytes_per_pixel();
            if quarter % 4 == 1 {
                lemma_rot90_wf(self.grid(), n);
            } else if quarter % 4 == 2 {
                lemma_rot180_wf(self.grid(), n);
            } else if quarter % 4 == 3 {
                lemma_rot270_wf(self.grid(), n);
            }
        }
        ImageWrapper { dyn_image: out }
    }

    /// Mirror along the vertical axis if `horizontal`, else along the
    /// horizontal axis. An exact pixel permutation: no resampling.
    pub fn flip(&self, horizontal: bool) -> (r: Self)
        requires
            self.wf(),
        ensures
            r.wf(),
            r.layout() == self.layout(),
            horizontal ==> r.grid() == flip_h_grid(self.grid()),
            !horizontal ==> r.grid() == flip_v_grid(self.grid()),
    {
        let out = if horizontal {
            raw::fliph_raw(&self.dyn_image)
        } else {
            raw::flipv_raw(&self.dyn_image)
        };
        proof {
            let n = self.layout().spec_bytes_per_pixel();
            if horizontal {
                lemma_flip_h_wf(self.grid(), n);
            } else {
                lemma_flip_v_wf(self.grid(), n);
            }
        }
        ImageWrapper { dyn_image: out }
    }

    /// Extract the `w` by `h` sub-rectangle at `(x, y)`. The rectangle must
    /// lie within the image and be non-empty; anything else is a
    /// constraint violation, never a silent clamp.
    pub fn crop(&self, x: u32, y: u32, w: u32, h: u32) -> (r: Result<Self, EngineError>)
        requires
            self.wf(),
        ensures
            match r {
                Ok(c) => {
                    &&& x + w <= self.width()
                    &&& y + h <= self.height()
                    &&& w >= 1
                    &&& h >= 1
                    &&& c.wf()
                    &&& c.layout() == self.layout()
                    &&& c.grid() == sub_grid(self.grid(), x as nat, y as nat, w as nat, h as nat)
                },
                Err(e) => {
                    &&& (x + w > self.width() || y + h > self.height() || w == 0 || h == 0)
                    &&& e is ConstraintViolation
                },
            },
    {
        let (sw, sh) = self.dimensions();
        if w == 0 || h == 0 || (x as u64) + (w as u64) > (sw as u64) || (y as u64) + (h as u64) > (
        sh as u64) {
            Err(EngineError::ConstraintViolation("crop rectangle out of bounds".to_owned()))
        } else {
            let out = raw::crop_raw(&self.dyn_image, x, y, w, h);
            proof {
                lemma_sub_grid_wf(
                    self.grid(),
                    x as nat,
                    y as nat,
                    w as nat,
                    h as nat,
                    self.layout().spec_bytes_per_pixel(),
                );
            }
            Ok(ImageWrapper { dyn_image: out })
        }
    }

    /// Encode the image into the given container format, in memory. A JPEG
    /// quality outside `1..=100` is a constraint violation; otherwise the
    /// result is exactly the codec's outcome on this image and format: its
    /// bytes on success, its message on failure.
    pub fn buffer(&self, format: OutputKind) -> (r: Result<Vec<u8>, EngineError>)
        requires
            self.wf(),
        ensures
            !quality_ok(format) ==> (r matches Err(e) && e is ConstraintViolation),
            quality_ok(format) ==> encode_post(self.grid(), self.layout(), format, r),
    {
        match format {
            OutputKind::Png => codec_result(raw::encode_plain(&self.dyn_image, &raw::PlainKind::Png)),
            OutputKind::Jpeg(q) => {
                if q < 1 || q > 100 {
                    Err(
                        EngineError::ConstraintViolation(
                            "jpeg quality must lie within 1-100".to_owned(),
                        ),
                    )
                } else {
                    codec_result(raw::encode_jpeg(&self.dyn_image, q))
                }
            },
            OutputKind::Pnm(p) => codec_result(raw::encode_pnm(&self.dyn_image, &p)),
            OutputKind::Gif => codec_result(raw::encode_plain(&self.dyn_image, &raw::PlainKind::Gif)),
            OutputKind::Ico => codec_result(raw::encode_plain(&self.dyn_image, &raw::PlainKind::Ico)),
            OutputKind::Bmp => codec_result(raw::encode_plain(&self.dyn_image, &raw::PlainKind::Bmp)),
            OutputKind::Farbfeld => codec_result(
                raw::encode_plain(&self.dyn_image, &raw::PlainKind::Farbfeld),
            ),
            OutputKind::Tga => codec_result(raw::encode_plain(&self.dyn_image, &raw::PlainKind::Tga)),
            OutputKind::OpenExr => codec_result(
                raw::encode_plain(&self.dyn_image, &raw::PlainKind::OpenExr),
            ),
            OutputKind::Tiff => codec_result(raw::encode_plain(&self.dyn_image, &raw::PlainKind::Tiff)),
            OutputKind::Qoi => codec_result(raw::encode_plain(&self.dyn_image, &raw::PlainKind::Qoi)),
        }
    }
}

/// Lift a codec result into the engine's error taxonomy: the bytes pass
/// through unchanged, and the codec's message is propagated verbatim as a
/// [`EngineError::CodecFailure`].
fn codec_result(r: Result<Vec<u8>, String>) -> (out: Result<Vec<u8>, EngineError>)
    ensures
        match r {
            Ok(v) => out matches Ok(v2) && v2 == v,
            Err(m) => {
                &&& out matches Err(e)
                &&& e matches EngineError::CodecFailure(m2)
                &&& m2 == m
            },
        },
{
    match r {
        Ok(v) => Ok(v),
        Err(m) => Err(EngineError::CodecFailure(m)),
    }
}

/// Law: resizing is pure and deterministic — two fit resizes of
/// pixel-identical images of the same layout, with equal bounds and equal
/// filter, are pixel-identical; neither call touches its input.
pub proof fn lemma_resize_fit_deterministic(
    a: ImageWrapper,
    b: ImageWrapper,
    ra: ImageWrapper,
    rb: ImageWrapper,
    nw: u32,
    nh: u32,
    f: Filter,
)
    requires
        a.grid() == b.grid(),
        a.layout() == b.layout(),
        ra.grid() == resized_fit_of(a.grid(), a.layout(), nw, nh, f),
        rb.grid() == resized_fit_of(b.grid(), b.layout(), nw, nh, f),
    ensures
        ra.grid() == rb.grid(),
{
}

} // verus!
