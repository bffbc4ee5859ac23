//! An in-memory image transformation and encoding engine.
//!
//! A decoded raster image is held as a canonical value ([`wrapper::ImageWrapper`],
//! wrapped for callers as [`common::CommonImage`]); geometric transforms (resize
//! under three fitting strategies, quarter-turn rotation, flip, crop) each return
//! a new image, and the encode engine re-encodes a canonical image into one of
//! the supported container formats. Decoding and the per-format codecs are the
//! `image` crate's work, reached through a small set of trusted declarations in
//! [`raw`]; everything around them is verified.

use vstd::prelude::*;

pub mod color;
pub mod common;
pub mod errors;
pub mod formats;
pub mod grid;
pub mod loader;
pub mod raw;
pub mod strategy;
pub mod wrapper;

verus! {

/// Add two integers.
pub fn sum(a: i32, b: i32) -> (r: i32)
    requires
        i32::MIN <= a + b <= i32::MAX,
    ensures
        r == a + b,
{
    a + b
}

} // verus!
