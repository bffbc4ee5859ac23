//! The canonical image as callers see it.
//!
//! A [`CommonImage`] exposes the pure layout queries, the geometric
//! transforms (each returning a new image), and one `to_*` encoder per
//! container format. The one piece of cross-cutting control flow lives in
//! [`CommonImage::to_ico`]: the size-constrained fallback protocol, which
//! either encodes directly, resizes under a caller-supplied strategy first,
//! or fails loudly — never silently truncating or distorting.

use vstd::prelude::*;

use crate::color::ColorKind;
use crate::errors::{EngineError, ParseError};
use crate::formats::{quality_ok, OutputKind, PnmKind};
use crate::grid::{flip_h_grid, flip_v_grid, grid_height, grid_width, rot180_grid, rot270_grid,
    rot90_grid, sub_grid, PixelGrid};
use crate::raw::{cover_safe, resized_exact_of, resized_fill_of, resized_fit_of};
use crate::strategy::{filter_parser, spec_filter, spec_strategy, str_eq, strategy_fault,
    strategy_ok, strategy_parser, Filter, FitMode, ResizeStrategy};
use crate::wrapper::{encode_post, ImageWrapper};

verus! {

/// The fallback bound of the one size-constrained output format: ICO
/// rasters may be at most this wide and this high.
pub const ICON_MAX_DIM: u32 = 256;

/// An optional filter token is acceptable when absent or naming a filter.
pub open spec fn opt_filter_ok(filter: Option<String>) -> bool {
    match filter {
        None => true,
        Some(f) => spec_filter(f@) is Some,
    }
}

/// The filter an optional token selects; an absent token defaults to
/// `nearest`.
pub open spec fn opt_filter_spec(filter: Option<String>) -> Filter
    recommends
        opt_filter_ok(filter),
{
    match filter {
        None => Filter::Nearest,
        Some(f) => spec_filter(f@)->Some_0,
    }
}

/// The sample encoding an optional flag selects: binary unless `false` is
/// given.
pub open spec fn sample_default(binary_sample: Option<bool>) -> bool {
    match binary_sample {
        Some(b) => b,
        None => true,
    }
}

/// The pixels the size-constrained fallback hands to the ICO encoder: the
/// source resized to the icon bound under the strategy's mode and filter.
pub open spec fn ico_fallback_grid(g: PixelGrid, c: ColorKind, st: ResizeStrategy) -> PixelGrid {
    match st.mode {
        FitMode::Fit => resized_fit_of(g, c, ICON_MAX_DIM, ICON_MAX_DIM, st.filter),
        FitMode::Cover => resized_fill_of(g, c, ICON_MAX_DIM, ICON_MAX_DIM, st.filter),
        FitMode::Exact => resized_exact_of(g, c, ICON_MAX_DIM, ICON_MAX_DIM, st.filter),
    }
}

/// A decoded raster plus its color and depth metadata, with the engine's
/// transform and encode repertoire.
pub struct CommonImage {
    /// The canonical image value.
    wrapper: ImageWrapper,
}

impl CommonImage {
    /// The pixel grid of the image.
    pub closed spec fn grid(&self) -> PixelGrid {
        self.wrapper.grid()
    }

    /// The color layout of the image.
    pub closed spec fn layout(&self) -> ColorKind {
        self.wrapper.layout()
    }

    /// The width of the image in pixels.
    pub open spec fn width(&self) -> nat {
        grid_width(self.grid())
    }

    /// The height of the image in pixels.
    pub open spec fn height(&self) -> nat {
        grid_height(self.grid())
    }

    /// A valid image: positive dimensions and a well-formed buffer model.
    pub closed spec fn wf(&self) -> bool {
        self.wrapper.wf()
    }

    /// The image already satisfies the ICO dimension constraint.
    pub open spec fn fits_icon(&self) -> bool {
        self.width() <= ICON_MAX_DIM && self.height() <= ICON_MAX_DIM
    }

    /// What validity gives of the model: a rectangular grid with positive
    /// dimensions that fit in `u32`, a known layout, and one byte group of
    /// the layout's size per pixel — the buffer-length invariant every
    /// operation preserves.
    pub proof fn lemma_wf(&self)
        requires
            self.wf(),
        ensures
            crate::grid::is_rect(self.grid()),
            1 <= self.width() <= u32::MAX,
            1 <= self.height() <= u32::MAX,
            self.layout() != ColorKind::Unknown,
            crate::grid::pixels_sized(self.grid(), self.layout().spec_bytes_per_pixel()),
    {
        self.wrapper.lemma_wf();
    }

    /// Law: the pixel buffer of a valid image holds exactly
    /// `height * width * bytes-per-pixel` bytes, always.
    pub proof fn lemma_buffer_len(&self)
        requires
            self.wf(),
        ensures
            crate::grid::grid_bytes(self.grid()) == self.height() * (self.width()
                * self.layout().spec_bytes_per_pixel()),
    {
        self.lemma_wf();
        crate::grid::lemma_grid_bytes(self.grid(), self.layout().spec_bytes_per_pixel());
    }

    /// Wrap a canonical image value.
    pub fn new(wrapper: ImageWrapper) -> (r: Self)
        ensures
            r.grid() == wrapper.grid(),
            r.layout() == wrapper.layout(),
            r.wf() == wrapper.wf(),
    {
        CommonImage { wrapper }
    }

    /// The dimensions of the image as a two-element vector: width, height.
    pub fn dimensions(&self) -> (r: Vec<u32>)
        requires
            self.wf(),
        ensures
            r@.len() == 2,
            r@[0] as nat == self.width(),
            r@[1] as nat == self.height(),
    {
        let (w, h) = self.wrapper.dimensions();
        let mut v: Vec<u32> = Vec::new();
        v.push(w);
        v.push(h);
        v
    }

    /// The compact name of the image's color layout (`l8`, `rgb8`,
    /// `rgba16`, ...).
    pub fn color_type(&self) -> (r: String)
        ensures
            r@ == self.layout().spec_name(),
    {
        let c = self.wrapper.color();
        c.name()
    }

    /// Bits of information stored per pixel of the image.
    pub fn bpp(&self) -> (r: u16)
        ensures
            r == self.layout().spec_depth() * self.layout().spec_channels(),
    {
        self.wrapper.bits_per_pixel()
    }

    /// Resize preserving the aspect ratio, to the largest size that fits
    /// within `nw` by `nh`. An invalid filter token is rejected, never
    /// defaulted.
    pub fn resize_to_fit(&self, nw: u32, nh: u32, filter: Option<String>) -> (r: Result<
        Self,
        EngineError,
    >)
        requires
            self.wf(),
            nw >= 1,
            nh >= 1,
        ensures
            match r {
                Ok(img) => {
                    &&& opt_filter_ok(filter)
                    &&& img.wf()
                    &&& img.layout() == self.layout()
                    &&& 1 <= img.width() <= nw
                    &&& 1 <= img.height() <= nh
                    &&& (img.width() == nw || img.height() == nh)
                    &&& img.width() * self.height() - img.height() * self.width() <= self.width()
                        + self.height()
                    &&& img.height() * self.width() - img.width() * self.height() <= self.width()
                        + self.height()
                    &&& img.grid() == resized_fit_of(
                        self.grid(),
                        self.layout(),
                        nw,
                        nh,
                        opt_filter_spec(filter),
                    )
                },
                Err(e) => {
                    &&& !opt_filter_ok(filter)
                    &&& e matches EngineError::Parse(ParseError::Filter(t))
                    &&& filter matches Some(f) && t@ == f@
                },
            },
    {
        let ft = match parse_opt_filter(&filter) {
            Ok(f) => f,
            Err(e) => {
                return Err(e);
            },
        };
        Ok(CommonImage { wrapper: self.wrapper.resize_to_fit(nw, nh, ft) })
    }

    /// Resize preserving the aspect ratio to cover `nw` by `nh`, then
    /// center-crop to exactly `nw` by `nh`. An invalid filter token is
    /// rejected; so is a source so elongated that the intermediate raster
    /// would leave the representable dimension range.
    pub fn resize_to_cover(&self, nw: u32, nh: u32, filter: Option<String>) -> (r: Result<
        Self,
        EngineError,
    >)
        requires
            self.wf(),
            nw >= 1,
            nh >= 1,
        ensures
            match r {
                Ok(img) => {
                    &&& opt_filter_ok(filter)
                    &&& cover_safe(self.width(), self.height(), nw as nat, nh as nat)
                    &&& img.wf()
                    &&& img.layout() == self.layout()
                    &&& img.width() == nw
                    &&& img.height() == nh
                    &&& img.grid() == resized_fill_of(
                        self.grid(),
                        self.layout(),
                        nw,
                        nh,
                        opt_filter_spec(filter),
                    )
                },
                Err(e) => {
                    ||| ({
                        &&& !opt_filter_ok(filter)
                        &&& e matches EngineError::Parse(ParseError::Filter(t))
                        &&& filter matches Some(f) && t@ == f@
                    })
                    ||| (opt_filter_ok(filter) && !cover_safe(
                        self.width(),
                        self.height(),
                        nw as nat,
                        nh as nat,
                    ) && e is ConstraintViolation)
                },
            },
    {
        let ft = match parse_opt_filter(&filter) {
            Ok(f) => f,
            Err(e) => {
                return Err(e);
            },
        };
        let (w, h) = self.wrapper.dimensions();
        let limit: u32 = u32::MAX - 1;
        if mul_wide(w, nh) > mul_wide(limit, h) || mul_wide(h, nw) > mul_wide(limit, w) {
            return Err(
                EngineError::ConstraintViolation(
                    "image is too elongated to cover-resize to this target".to_owned(),
                ),
            );
        }
        Ok(CommonImage { wrapper: self.wrapper.resize_to_cover(nw, nh, ft) })
    }

    /// Resize without preserving the aspect ratio: the result is exactly
    /// `nw` by `nh`. An invalid filter token is rejected, never defaulted.
    pub fn resize_exact(&self, nw: u32, nh: u32, filter: Option<String>) -> (r: Result<
        Self,
        EngineError,
    >)
        requires
            self.wf(),
            nw >= 1,
            nh >= 1,
        ensures
            match r {
                Ok(img) => {
                    &&& opt_filter_ok(filter)
                    &&& img.wf()
                    &&& img.layout() == self.layout()
                    &&& img.width() == nw
                    &&& img.height() == nh
                    &&& img.grid() == resized_exact_of(
                        self.grid(),
                        self.layout(),
                        nw,
                        nh,
                        opt_filter_spec(filter),
                    )
                },
                Err(e) => {
                    &&& !opt_filter_ok(filter)
                    &&& e matches EngineError::Parse(ParseError::Filter(t))
                    &&& filter matches Some(f) && t@ == f@
                },
            },
    {
        let ft = match parse_opt_filter(&filter) {
            Ok(f) => f,
            Err(e) => {
                return Err(e);
            },
        };
        Ok(CommonImage { wrapper: self.wrapper.resize_exact(nw, nh, ft) })
    }

    /// Rotate clockwise by `quarter` times 90 degrees; any count is
    /// accepted and taken modulo 4. An exact pixel permutation.
    pub fn rotate_quarter(&self, quarter: u8) -> (r: Self)
        requires
            self.wf(),
        ensures
            r.wf(),
            r.layout() == self.layout(),
            quarter % 4 == 0 ==> r.grid() == self.grid(),
            quarter % 4 == 1 ==> r.grid() == rot90_grid(self.grid()),
            quarter % 4 == 2 ==> r.grid() == rot180_grid(self.grid()),
            quarter % 4 == 3 ==> r.grid() == rot270_grid(self.grid()),
    {
        CommonImage { wrapper: self.wrapper.rotate(quarter) }
    }

    /// Mirror along the vertical axis when `horizontal` is absent or true,
    /// else along the horizontal axis. An exact pixel permutation.
    pub fn flip(&self, horizontal: Option<bool>) -> (r: Self)
        requires
            self.wf(),
        ensures
            r.wf(),
            r.layout() == self.layout(),
            match horizontal {
                Some(false) => r.grid() == flip_v_grid(self.grid()),
                _ => r.grid() == flip_h_grid(self.grid()),
            },
    {
        let hz = match horizontal {
            Some(b) => b,
            None => true,
        };
        CommonImage { wrapper: self.wrapper.flip(hz) }
    }

    /// Extract the `w` by `h` sub-rectangle at `(x, y)`. A rectangle that
    /// leaves the image, or an empty one, is a constraint violation.
    pub fn crop(&self, x: u32, y: u32, width: u32, height: u32) -> (r: Result<Self, EngineError>)
        requires
            self.wf(),
        ensures
            match r {
                Ok(c) => {
                    &&& x + width <= self.width()
                    &&& y + height <= self.height()
                    &&& width >= 1
                    &&& height >= 1
                    &&& c.wf()
                    &&& c.layout() == self.layout()
                    &&& c.grid() == sub_grid(
                        self.grid(),
                        x as nat,
                        y as nat,
                        width as nat,
                        height as nat,
                    )
                },
                Err(e) => {
                    &&& (x + width > self.width() || y + height > self.height() || width == 0
                        || height == 0)
                    &&& e is ConstraintViolation
                },
            },
    {
        match self.wrapper.crop(x, y, width, height) {
            Ok(w) => Ok(CommonImage { wrapper: w }),
            Err(e) => Err(e),
        }
    }

    /// Encode into the given output format.
    fn out(&self, format: OutputKind) -> (r: Result<Vec<u8>, EngineError>)
        requires
            self.wf(),
        ensures
            !quality_ok(format) ==> (r matches Err(e) && e is ConstraintViolation),
            quality_ok(format) ==> encode_post(self.grid(), self.layout(), format, r),
    {
        self.wrapper.buffer(format)
    }

    /// Encode this image as a PNG and return the encoded bytes: exactly the
    /// codec's outcome on this image.
    pub fn to_png(&self) -> (r: Result<Vec<u8>, EngineError>)
        requires
            self.wf(),
        ensures
            encode_post(self.grid(), self.layout(), OutputKind::Png, r),
    {
        self.out(OutputKind::Png)
    }

    /// Encode this image as a JPEG with the given quality: exactly the
    /// codec's outcome at that quality. A quality outside `1..=100` is a
    /// constraint violation, never a panic.
    pub fn to_jpeg(&self, quality: u8) -> (r: Result<Vec<u8>, EngineError>)
        requires
            self.wf(),
        ensures
            1 <= quality <= 100 ==> encode_post(
                self.grid(),
                self.layout(),
                OutputKind::Jpeg(quality),
                r,
            ),
            !(1 <= quality <= 100) ==> (r matches Err(e) && e is ConstraintViolation),
    {
        self.out(OutputKind::Jpeg(quality))
    }

    /// Encode this image as a PNM in the PBM variant; `binary_sample`
    /// defaults to binary sample encoding. The result is exactly the
    /// codec's outcome for that subtype and encoding.
    pub fn to_pbm(&self, binary_sample: Option<bool>) -> (r: Result<Vec<u8>, EngineError>)
        requires
            self.wf(),
        ensures
            encode_post(
                self.grid(),
                self.layout(),
                OutputKind::Pnm(PnmKind::Bitmap(sample_default(binary_sample))),
                r,
            ),
    {
        let b = match binary_sample {
            Some(x) => x,
            None => true,
        };
        self.out(OutputKind::Pnm(PnmKind::Bitmap(b)))
    }

    /// Encode this image as a PNM in the PGM variant; `binary_sample`
    /// defaults to binary sample encoding. The result is exactly the
    /// codec's outcome for that subtype and encoding.
    pub fn to_pgm(&self, binary_sample: Option<bool>) -> (r: Result<Vec<u8>, EngineError>)
        requires
            self.wf(),
        ensures
            encode_post(
                self.grid(),
                self.layout(),
                OutputKind::Pnm(PnmKind::Graymap(sample_default(binary_sample))),
                r,
            ),
    {
        let b = match binary_sample {
            Some(x) => x,
            None => true,
        };
        self.out(OutputKind::Pnm(PnmKind::Graymap(b)))
    }

    /// Encode this image as a PNM in the PPM variant; `binary_sample`
    /// defaults to binary sample encoding. The result is exactly the
    /// codec's outcome for that subtype and encoding.
    pub fn to_ppm(&self, binary_sample: Option<bool>) -> (r: Result<Vec<u8>, EngineError>)
        requires
            self.wf(),
        ensures
            encode_post(
                self.grid(),
                self.layout(),
                OutputKind::Pnm(PnmKind::Pixmap(sample_default(binary_sample))),
                r,
            ),
    {
        let b = match binary_sample {
            Some(x) => x,
            None => true,
        };
        self.out(OutputKind::Pnm(PnmKind::Pixmap(b)))
    }

    /// Encode this image as a PNM extended as PAM: exactly the codec's
    /// outcome for that subtype.
    pub fn to_pam(&self) -> (r: Result<Vec<u8>, EngineError>)
        requires
            self.wf(),
        ensures
            encode_post(self.grid(), self.layout(), OutputKind::Pnm(PnmKind::Arbitrary), r),
    {
        self.out(OutputKind::Pnm(PnmKind::Arbitrary))
    }

    /// Encode this image as a PNM with the given subtype token (`pbm`,
    /// `pgm`, `ppm`, `pam`): the result equals the corresponding
    /// per-subtype encoder's. Any other token is rejected with a parse
    /// error carrying it, and no encode is attempted.
    pub fn to_pnm(&self, subtype: String, binary_sample: Option<bool>) -> (r: Result<
        Vec<u8>,
        EngineError,
    >)
        requires
            self.wf(),
        ensures
            subtype@ == "pbm"@ ==> encode_post(
                self.grid(),
                self.layout(),
                OutputKind::Pnm(PnmKind::Bitmap(sample_default(binary_sample))),
                r,
            ),
            subtype@ == "pgm"@ ==> encode_post(
                self.grid(),
                self.layout(),
                OutputKind::Pnm(PnmKind::Graymap(sample_default(binary_sample))),
                r,
            ),
            subtype@ == "ppm"@ ==> encode_post(
                self.grid(),
                self.layout(),
                OutputKind::Pnm(PnmKind::Pixmap(sample_default(binary_sample))),
                r,
            ),
            subtype@ == "pam"@ ==> encode_post(
                self.grid(),
                self.layout(),
                OutputKind::Pnm(PnmKind::Arbitrary),
                r,
            ),
            !(subtype@ == "pbm"@ || subtype@ == "pgm"@ || subtype@ == "ppm"@ || subtype@
                == "pam"@) ==> {
                &&& r matches Err(EngineError::Parse(ParseError::Subtype(t)))
                &&& t@ == subtype@
            },
    {
        proof {
            reveal_strlit("pbm");
            reveal_strlit("pgm");
            reveal_strlit("ppm");
            reveal_strlit("pam");
            // The four subtype tokens differ pairwise in their middle character.
            assert("pbm"@[1] == 'b' && "pgm"@[1] == 'g' && "ppm"@[1] == 'p' && "pam"@[1] == 'a');
        }
        if str_eq(subtype.as_str(), "pbm") {
            self.to_pbm(binary_sample)
        } else if str_eq(subtype.as_str(), "pgm") {
            self.to_pgm(binary_sample)
        } else if str_eq(subtype.as_str(), "ppm") {
            self.to_ppm(binary_sample)
        } else if str_eq(subtype.as_str(), "pam") {
            self.to_pam()
        } else {
            Err(EngineError::Parse(ParseError::Subtype(subtype)))
        }
    }

    /// Encode this image as a GIF and return the encoded bytes: exactly the
    /// codec's outcome on this image.
    pub fn to_gif(&self) -> (r: Result<Vec<u8>, EngineError>)
        requires
            self.wf(),
        ensures
            encode_post(self.grid(), self.layout(), OutputKind::Gif, r),
    {
        self.out(OutputKind::Gif)
    }

    /// Encode this image as an ICO, under the size-constrained fallback
    /// protocol. ICO rasters may be at most 256 by 256:
    /// an image already within the bound is encoded directly; a larger one
    /// is resized to the bound first under the supplied strategy token; a
    /// larger one without a strategy is a constraint violation, and an
    /// invalid strategy token a parse error — never a silent truncation.
    pub fn to_ico(&self, strategy: Option<String>) -> (r: Result<Vec<u8>, EngineError>)
        requires
            self.wf(),
        ensures
            self.fits_icon() ==> encode_post(self.grid(), self.layout(), OutputKind::Ico, r),
            !self.fits_icon() ==> match strategy {
                None => r matches Err(e) && e is ConstraintViolation,
                Some(s) => if !strategy_ok(s@) {
                    r matches Err(EngineError::Parse(pe)) && strategy_fault(s@, pe)
                } else if spec_strategy(s@).mode == FitMode::Cover && !cover_safe(
                    self.width(),
                    self.height(),
                    ICON_MAX_DIM as nat,
                    ICON_MAX_DIM as nat,
                ) {
                    r matches Err(e) && e is ConstraintViolation
                } else {
                    encode_post(
                        ico_fallback_grid(self.grid(), self.layout(), spec_strategy(s@)),
                        self.layout(),
                        OutputKind::Ico,
                        r,
                    )
                },
            },
    {
        let (w, h) = self.wrapper.dimensions();
        if w <= ICON_MAX_DIM && h <= ICON_MAX_DIM {
            return self.out(OutputKind::Ico);
        }
        let tok = match strategy {
            None => {
                return Err(
                    EngineError::ConstraintViolation(
                        "image size is too large for ico format, max size is 256x256".to_owned(),
                    ),
                );
            },
            Some(t) => t,
        };
        let st = match strategy_parser(tok.as_str()) {
            Ok(st) => st,
            Err(pe) => {
                return Err(EngineError::Parse(pe));
            },
        };
        let resized: ImageWrapper = match st.mode {
            FitMode::Fit => self.wrapper.resize_to_fit(ICON_MAX_DIM, ICON_MAX_DIM, st.filter),
            FitMode::Exact => self.wrapper.resize_exact(ICON_MAX_DIM, ICON_MAX_DIM, st.filter),
            FitMode::Cover => {
                let limit: u32 = u32::MAX - 1;
                if mul_wide(w, ICON_MAX_DIM) > mul_wide(limit, h) || mul_wide(h, ICON_MAX_DIM)
                    > mul_wide(limit, w) {
                    return Err(
                        EngineError::ConstraintViolation(
                            "image is too elongated to cover-resize to the ico bounds".to_owned(),
                        ),
                    );
                }
                self.wrapper.resize_to_cover(ICON_MAX_DIM, ICON_MAX_DIM, st.filter)
            },
        };
        resized.buffer(OutputKind::Ico)
    }

    /// Encode this image as a BMP and return the encoded bytes.
    pub fn to_bmp(&self) -> (r: Result<Vec<u8>, EngineError>)
        requires
            self.wf(),
        ensures
            encode_post(self.grid(), self.layout(), OutputKind::Bmp, r),
    {
        self.out(OutputKind::Bmp)
    }

    /// Encode this image as a Farbfeld and return the encoded bytes.
    pub fn to_farbfeld(&self) -> (r: Result<Vec<u8>, EngineError>)
        requires
            self.wf(),
        ensures
            encode_post(self.grid(), self.layout(), OutputKind::Farbfeld, r),
    {
        self.out(OutputKind::Farbfeld)
    }

    /// Encode this image as a TGA and return the encoded bytes.
    pub fn to_tga(&self) -> (r: Result<Vec<u8>, EngineError>)
        requires
            self.wf(),
        ensures
            encode_post(self.grid(), self.layout(), OutputKind::Tga, r),
    {
        self.out(OutputKind::Tga)
    }

    /// Encode this image as an OpenEXR and return the encoded bytes.
    pub fn to_openexr(&self) -> (r: Result<Vec<u8>, EngineError>)
        requires
            self.wf(),
        ensures
            encode_post(self.grid(), self.layout(), OutputKind::OpenExr, r),
    {
        self.out(OutputKind::OpenExr)
    }

    /// Encode this image as a TIFF and return the encoded bytes.
    pub fn to_tiff(&self) -> (r: Result<Vec<u8>, EngineError>)
        requires
            self.wf(),
        ensures
            encode_post(self.grid(), self.layout(), OutputKind::Tiff, r),
    {
        self.out(OutputKind::Tiff)
    }

    /// Encode this image as a QOI and return the encoded bytes.
    pub fn to_qoi(&self) -> (r: Result<Vec<u8>, EngineError>)
        requires
            self.wf(),
        ensures
            encode_post(self.grid(), self.layout(), OutputKind::Qoi, r),
    {
        self.out(OutputKind::Qoi)
    }
}

/// Law: flipping along the vertical axis twice restores the image
/// pixel-for-pixel. `b` and `c` are the results of the two [`CommonImage::flip`]
/// calls, as their contracts describe them.
pub proof fn lemma_flip_horizontal_twice(a: CommonImage, b: CommonImage, c: CommonImage)
    requires
        b.grid() == flip_h_grid(a.grid()),
        c.grid() == flip_h_grid(b.grid()),
    ensures
        c.grid() == a.grid(),
{
    crate::grid::lemma_flip_h_involutive(a.grid());
}

/// Law: flipping along the horizontal axis twice restores the image
/// pixel-for-pixel.
pub proof fn lemma_flip_vertical_twice(a: CommonImage, b: CommonImage, c: CommonImage)
    requires
        b.grid() == flip_v_grid(a.grid()),
        c.grid() == flip_v_grid(b.grid()),
    ensures
        c.grid() == a.grid(),
{
    crate::grid::lemma_flip_v_involutive(a.grid());
}

/// Law: two half turns restore the image pixel-for-pixel. `b` and `c` are
/// the results of the two [`CommonImage::rotate_quarter`] calls with a
/// quarter count of two.
pub proof fn lemma_rotate_half_twice(a: CommonImage, b: CommonImage, c: CommonImage)
    requires
        b.grid() == rot180_grid(a.grid()),
        c.grid() == rot180_grid(b.grid()),
    ensures
        c.grid() == a.grid(),
{
    crate::grid::lemma_rot180_involutive(a.grid());
}

/// Law: four single quarter turns restore a valid image pixel-for-pixel.
pub proof fn lemma_rotate_four_single_quarters(
    a: CommonImage,
    b: CommonImage,
    c: CommonImage,
    d: CommonImage,
    e: CommonImage,
)
    requires
        a.wf(),
        b.grid() == rot90_grid(a.grid()),
        c.grid() == rot90_grid(b.grid()),
        d.grid() == rot90_grid(c.grid()),
        e.grid() == rot90_grid(d.grid()),
    ensures
        e.grid() == a.grid(),
{
    a.lemma_wf();
    crate::grid::lemma_rot90_four_times(a.grid());
}

/// Law: the crop that covers the whole frame returns the image unchanged,
/// pixel-for-pixel.
pub proof fn lemma_crop_full_frame(a: CommonImage, c: CommonImage)
    requires
        a.wf(),
        c.grid() == sub_grid(a.grid(), 0, 0, a.width(), a.height()),
    ensures
        c.grid() == a.grid(),
{
    a.lemma_wf();
    crate::grid::lemma_sub_grid_full(a.grid());
}

/// Law: an absent filter token selects the same resampling as the explicit
/// `nearest` token, so the default resize is pixel-identical to the
/// explicitly chosen one.
pub proof fn lemma_absent_filter_is_nearest(f: String)
    requires
        f@ == "nearest"@,
    ensures
        opt_filter_ok(Some(f)),
        opt_filter_spec(Some(f)) == opt_filter_spec(None::<String>),
{
}

/// The exact product of two `u32` values.
fn mul_wide(a: u32, b: u32) -> (r: u128)
    ensures
        r == a as nat * b as nat,
{
    proof {
        assert((a as int) * (b as int) <= 0xffff_ffff * 0xffff_ffff) by (nonlinear_arith)
            requires
                a <= 0xffff_ffffu32,
                b <= 0xffff_ffffu32,
        ;
    }
    (a as u128) * (b as u128)
}

/// Parse an optional filter token; an absent token selects `nearest`, an
/// invalid one is rejected.
fn parse_opt_filter(filter: &Option<String>) -> (r: Result<Filter, EngineError>)
    ensures
        match r {
            Ok(f) => opt_filter_ok(*filter) && f == opt_filter_spec(*filter),
            Err(e) => {
                &&& !opt_filter_ok(*filter)
                &&& e matches EngineError::Parse(ParseError::Filter(t))
                &&& *filter matches Some(f) && t@ == f@
            },
        },
{
    match filter {
        None => Ok(Filter::Nearest),
        Some(f) => match filter_parser(f.as_str()) {
            Ok(ft) => Ok(ft),
            Err(pe) => Err(EngineError::Parse(pe)),
        },
    }
}

} // verus!
