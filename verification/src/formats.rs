//! The closed enumerations of container formats.
//!
//! The repertoire of input and output formats is fixed at build time, so each
//! is a sum type: a format tag plus its format-specific options, and every
//! dispatch path over them is exhaustively checked.

use vstd::prelude::*;

verus! {

/// A container format an image can be decoded from.
#[derive(Clone, Copy, Debug, PartialEq, Eq, Structural)]
pub enum InputFormat {
    /// PNG.
    Png,
    /// JPEG.
    Jpeg,
    /// GIF.
    Gif,
    /// WebP.
    WebP,
    /// One of the PNM formats.
    Pnm,
    /// TIFF.
    Tiff,
    /// TGA.
    Tga,
    /// DDS.
    Dds,
    /// BMP.
    Bmp,
    /// ICO.
    Ico,
    /// Radiance HDR.
    Hdr,
    /// OpenEXR.
    OpenExr,
    /// Farbfeld.
    Farbfeld,
    /// AVIF.
    Avif,
    /// QOI.
    Qoi,
}

/// A PNM subtype together with its sample encoding where one applies:
/// `true` selects binary samples, `false` ASCII samples.
#[derive(Clone, Copy, Debug, PartialEq, Eq, Structural)]
pub enum PnmKind {
    /// PBM, black and white.
    Bitmap(bool),
    /// PGM, grayscale.
    Graymap(bool),
    /// PPM, color.
    Pixmap(bool),
    /// PAM, the arbitrary-map extension; always binary.
    Arbitrary,
}

/// A container format an image can be encoded into, with its
/// format-specific options.
#[derive(Clone, Copy, Debug, PartialEq, Eq, Structural)]
pub enum OutputKind {
    /// PNG.
    Png,
    /// JPEG with a quality in `1..=100`.
    Jpeg(u8),
    /// One of the PNM formats.
    Pnm(PnmKind),
    /// GIF.
    Gif,
    /// ICO; enforces a hard 256 by 256 maximum dimension.
    Ico,
    /// BMP.
    Bmp,
    /// Farbfeld.
    Farbfeld,
    /// TGA.
    Tga,
    /// OpenEXR.
    OpenExr,
    /// TIFF.
    Tiff,
    /// QOI.
    Qoi,
}

/// The JPEG quality option, where present, lies in its documented range.
pub open spec fn quality_ok(k: OutputKind) -> bool {
    match k {
        OutputKind::Jpeg(q) => 1 <= q <= 100,
        _ => true,
    }
}

} // verus!
