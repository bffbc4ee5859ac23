//! Loading image bytes into a canonical image.
//!
//! [`ImageLoader`] offers one entry per container format, plus one that
//! sniffs the format from the byte stream. Decoding itself is the external
//! collaborator's work; every image that comes back is a valid canonical
//! image, and every failure surfaces the decoder's message.

use vstd::prelude::*;

use crate::common::CommonImage;
use crate::errors::EngineError;
use crate::formats::InputFormat;
use crate::grid::{grid_height, grid_width};
use crate::raw::decoded_of;
use crate::wrapper::ImageWrapper;

verus! {

/// The result `r` is exactly the outcome of decoding `bytes` under the
/// format hint `fmt`: a valid canonical image holding the decoder's pixels
/// and layout whenever the decoder succeeds with a non-empty raster, else
/// the decoder's message propagated verbatim (or the engine's rejection of
/// an empty raster).
pub open spec fn loaded_post(
    bytes: Seq<u8>,
    fmt: Option<InputFormat>,
    r: Result<CommonImage, EngineError>,
) -> bool {
    match r {
        Ok(img) => {
            &&& decoded_of(bytes, fmt) is Ok
            &&& img.wf()
            &&& img.grid() == decoded_of(bytes, fmt)->Ok_0.0
            &&& img.layout() == decoded_of(bytes, fmt)->Ok_0.1
        },
        Err(e) => {
            ||| ({
                &&& decoded_of(bytes, fmt) is Err
                &&& e matches EngineError::CodecFailure(m)
                &&& m@ == decoded_of(bytes, fmt)->Err_0
            })
            ||| ({
                &&& decoded_of(bytes, fmt) is Ok
                &&& (grid_width(decoded_of(bytes, fmt)->Ok_0.0) == 0 || grid_height(
                    decoded_of(bytes, fmt)->Ok_0.0,
                ) == 0)
                &&& e matches EngineError::CodecFailure(m)
                &&& m@ == "decoded image has zero width or height"@
            })
        },
    }
}

/// `ImageLoader` provides several ways to load image binary into a
/// [`CommonImage`].
pub struct ImageLoader {}

impl ImageLoader {
    /// Decode with a specified or sniffed container format.
    fn load(buffer: Vec<u8>, format: Option<InputFormat>) -> (r: Result<CommonImage, EngineError>)
        ensures
            loaded_post(buffer@, format, r),
    {
        match ImageWrapper::load(buffer, format) {
            Ok(iw) => Ok(CommonImage::new(iw)),
            Err(err) => Err(err),
        }
    }

    /// Create a `CommonImage` instance from a byte slice. Makes an educated
    /// guess about the image format.
    pub fn auto_guess(buffer: Vec<u8>) -> (r: Result<CommonImage, EngineError>)
        ensures
            loaded_post(buffer@, None, r),
    {
        Self::load(buffer, None)
    }

    /// Create a `CommonImage` instance from a byte slice. Assumes the image
    /// is a PNG.
    pub fn from_png(buffer: Vec<u8>) -> (r: Result<CommonImage, EngineError>)
        ensures
            loaded_post(buffer@, Some(InputFormat::Png), r),
    {
        Self::load(buffer, Some(InputFormat::Png))
    }

    /// Create a `CommonImage` instance from a byte slice. Assumes the image
    /// is a JPEG.
    pub fn from_jpeg(buffer: Vec<u8>) -> (r: Result<CommonImage, EngineError>)
        ensures
            loaded_post(buffer@, Some(InputFormat::Jpeg), r),
    {
        Self::load(buffer, Some(InputFormat::Jpeg))
    }

    /// Create a `CommonImage` instance from a byte slice. Assumes the image
    /// is a GIF.
    pub fn from_gif(buffer: Vec<u8>) -> (r: Result<CommonImage, EngineError>)
        ensures
            loaded_post(buffer@, Some(InputFormat::Gif), r),
    {
        Self::load(buffer, Some(InputFormat::Gif))
    }

    /// Create a `CommonImage` instance from a byte slice. Assumes the image
    /// is a WEBP.
    pub fn from_webp(buffer: Vec<u8>) -> (r: Result<CommonImage, EngineError>)
        ensures
            loaded_post(buffer@, Some(InputFormat::WebP), r),
    {
        Self::load(buffer, Some(InputFormat::WebP))
    }

    /// Create a `CommonImage` instance from a byte slice. Assumes the image
    /// is a PNM.
    pub fn from_pnm(buffer: Vec<u8>) -> (r: Result<CommonImage, EngineError>)
        ensures
            loaded_post(buffer@, Some(InputFormat::Pnm), r),
    {
        Self::load(buffer, Some(InputFormat::Pnm))
    }

    /// Create a `CommonImage` instance from a byte slice. Assumes the image
    /// is a TIFF.
    pub fn from_tiff(buffer: Vec<u8>) -> (r: Result<CommonImage, EngineError>)
        ensures
            loaded_post(buffer@, Some(InputFormat::Tiff), r),
    {
        Self::load(buffer, Some(InputFormat::Tiff))
    }

    /// Create a `CommonImage` instance from a byte slice. Assumes the image
    /// is a TGA.
    pub fn from_tga(buffer: Vec<u8>) -> (r: Result<CommonImage, EngineError>)
        ensures
            loaded_post(buffer@, Some(InputFormat::Tga), r),
    {
        Self::load(buffer, Some(InputFormat::Tga))
    }

    /// Create a `CommonImage` instance from a byte slice. Assumes the image
    /// is a DDS.
    pub fn from_dds(buffer: Vec<u8>) -> (r: Result<CommonImage, EngineError>)
        ensures
            loaded_post(buffer@, Some(InputFormat::Dds), r),
    {
        Self::load(buffer, Some(InputFormat::Dds))
    }

    /// Create a `CommonImage` instance from a byte slice. Assumes the image
    /// is a BMP.
    pub fn from_bmp(buffer: Vec<u8>) -> (r: Result<CommonImage, EngineError>)
        ensures
            loaded_post(buffer@, Some(InputFormat::Bmp), r),
    {
        Self::load(buffer, Some(InputFormat::Bmp))
    }

    /// Create a `CommonImage` instance from a byte slice. Assumes the image
    /// is an ICO.
    pub fn from_ico(buffer: Vec<u8>) -> (r: Result<CommonImage, EngineError>)
        ensures
            loaded_post(buffer@, Some(InputFormat::Ico), r),
    {
        Self::load(buffer, Some(InputFormat::Ico))
    }

    /// Create a `CommonImage` instance from a byte slice. Assumes the image
    /// is a Radiance HDR.
    pub fn from_hdr(buffer: Vec<u8>) -> (r: Result<CommonImage, EngineError>)
        ensures
            loaded_post(buffer@, Some(InputFormat::Hdr), r),
    {
        Self::load(buffer, Some(InputFormat::Hdr))
    }

    /// Create a `CommonImage` instance from a byte slice. Assumes the image
    /// is an OpenEXR.
    pub fn from_openexr(buffer: Vec<u8>) -> (r: Result<CommonImage, EngineError>)
        ensures
            loaded_post(buffer@, Some(InputFormat::OpenExr), r),
    {
        Self::load(buffer, Some(InputFormat::OpenExr))
    }

    /// Create a `CommonImage` instance from a byte slice. Assumes the image
    /// is a Farbfeld.
    pub fn from_farbfeld(buffer: Vec<u8>) -> (r: Result<CommonImage, EngineError>)
        ensures
            loaded_post(buffer@, Some(InputFormat::Farbfeld), r),
    {
        Self::load(buffer, Some(InputFormat::Farbfeld))
    }

    /// Create a `CommonImage` instance from a byte slice. Assumes the image
    /// is an AVIF.
    pub fn from_avif(buffer: Vec<u8>) -> (r: Result<CommonImage, EngineError>)
        ensures
            loaded_post(buffer@, Some(InputFormat::Avif), r),
    {
        Self::load(buffer, Some(InputFormat::Avif))
    }

    /// Create a `CommonImage` instance from a byte slice. Assumes the image
    /// is a QOI.
    pub fn from_qoi(buffer: Vec<u8>) -> (r: Result<CommonImage, EngineError>)
        ensures
            loaded_post(buffer@, Some(InputFormat::Qoi), r),
    {
        Self::load(buffer, Some(InputFormat::Qoi))
    }
}

} // verus!
