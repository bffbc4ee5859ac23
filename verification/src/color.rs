//! The color layout descriptor of a canonical image.
//!
//! A layout is a channel count (1 to 4), a channel bit depth (8, 16, or
//! 32-bit floating point samples), and the presence of an alpha channel.
//! These queries are pure and never fail on a valid layout.

use vstd::prelude::*;

verus! {

/// The color layout of a canonical image.
///
/// The ten concrete layouts combine luminance/RGB, with or without alpha, at
/// 8-bit, 16-bit, or 32-bit floating point depth. `Unknown` stands for a
/// layout the external decoder may introduce in the future; no valid image
/// produced today carries it.
#[derive(Clone, Copy, Debug, PartialEq, Eq, Structural)]
pub enum ColorKind {
    /// 8-bit luminance.
    L8,
    /// 8-bit luminance with alpha.
    La8,
    /// 8-bit R, G and B channels.
    Rgb8,
    /// 8-bit R, G, B and alpha channels.
    Rgba8,
    /// 16-bit luminance.
    L16,
    /// 16-bit luminance with alpha.
    La16,
    /// 16-bit R, G and B channels.
    Rgb16,
    /// 16-bit R, G, B and alpha channels.
    Rgba16,
    /// 32-bit floating point R, G and B channels.
    Rgb32F,
    /// 32-bit floating point R, G, B and alpha channels.
    Rgba32F,
    /// A layout this engine does not know.
    Unknown,
}

impl ColorKind {
    /// The number of channels: one sample per channel per pixel.
    pub open spec fn spec_channels(self) -> u8 {
        match self {
            ColorKind::L8 | ColorKind::L16 => 1,
            ColorKind::La8 | ColorKind::La16 => 2,
            ColorKind::Rgb8 | ColorKind::Rgb16 | ColorKind::Rgb32F => 3,
            ColorKind::Rgba8 | ColorKind::Rgba16 | ColorKind::Rgba32F => 4,
            ColorKind::Unknown => 0,
        }
    }

    /// The bit depth of one channel sample.
    pub open spec fn spec_depth(self) -> u8 {
        match self {
            ColorKind::L8 | ColorKind::La8 | ColorKind::Rgb8 | ColorKind::Rgba8 => 8,
            ColorKind::L16 | ColorKind::La16 | ColorKind::Rgb16 | ColorKind::Rgba16 => 16,
            ColorKind::Rgb32F | ColorKind::Rgba32F => 32,
            ColorKind::Unknown => 0,
        }
    }

    /// Whether the layout carries an alpha channel.
    pub open spec fn spec_has_alpha(self) -> bool {
        match self {
            ColorKind::La8 | ColorKind::Rgba8 | ColorKind::La16 | ColorKind::Rgba16
                | ColorKind::Rgba32F => true,
            _ => false,
        }
    }

    /// The number of bytes one pixel occupies in the buffer:
    /// channels times bytes per sample.
    pub open spec fn spec_bytes_per_pixel(self) -> nat {
        (self.spec_channels() * self.spec_depth() / 8) as nat
    }

    /// The number of channels: one sample per channel per pixel.
    pub fn channels(&self) -> (r: u8)
        ensures
            r == self.spec_channels(),
    {
        match self {
            ColorKind::L8 | ColorKind::L16 => 1,
            ColorKind::La8 | ColorKind::La16 => 2,
            ColorKind::Rgb8 | ColorKind::Rgb16 | ColorKind::Rgb32F => 3,
            ColorKind::Rgba8 | ColorKind::Rgba16 | ColorKind::Rgba32F => 4,
            ColorKind::Unknown => 0,
        }
    }

    /// The bit depth of one channel sample.
    pub fn depth(&self) -> (r: u8)
        ensures
            r == self.spec_depth(),
    {
        match self {
            ColorKind::L8 | ColorKind::La8 | ColorKind::Rgb8 | ColorKind::Rgba8 => 8,
            ColorKind::L16 | ColorKind::La16 | ColorKind::Rgb16 | ColorKind::Rgba16 => 16,
            ColorKind::Rgb32F | ColorKind::Rgba32F => 32,
            ColorKind::Unknown => 0,
        }
    }

    /// Whether the layout carries an alpha channel.
    pub fn has_alpha(&self) -> (r: bool)
        ensures
            r == self.spec_has_alpha(),
    {
        match self {
            ColorKind::La8 | ColorKind::Rgba8 | ColorKind::La16 | ColorKind::Rgba16
                | ColorKind::Rgba32F => true,
            _ => false,
        }
    }

    /// Bits of information stored per pixel: depth times channels.
    pub fn bits_per_pixel(&self) -> (r: u16)
        ensures
            r == self.spec_depth() * self.spec_channels(),
    {
        (self.depth() as u16) * (self.channels() as u16)
    }

    /// The compact name of the layout, as reported to callers.
    pub open spec fn spec_name(self) -> Seq<char> {
        match self {
            ColorKind::L8 => "l8"@,
            ColorKind::La8 => "la8"@,
            ColorKind::Rgb8 => "rgb8"@,
            ColorKind::Rgba8 => "rgba8"@,
            ColorKind::L16 => "l16"@,
            ColorKind::La16 => "la16"@,
            ColorKind::Rgb16 => "rgb16"@,
            ColorKind::Rgba16 => "rgba16"@,
            ColorKind::Rgb32F => "rgb32f"@,
            ColorKind::Rgba32F => "rgba32f"@,
            ColorKind::Unknown => "unknown_since_non_exhaustive"@,
        }
    }

    /// The compact name of the layout, as reported to callers.
    pub fn name(&self) -> (r: String)
        ensures
            r@ == self.spec_name(),
    {
        match self {
            ColorKind::L8 => "l8".to_owned(),
            ColorKind::La8 => "la8".to_owned(),
            ColorKind::Rgb8 => "rgb8".to_owned(),
            ColorKind::Rgba8 => "rgba8".to_owned(),
            ColorKind::L16 => "l16".to_owned(),
            ColorKind::La16 => "la16".to_owned(),
            ColorKind::Rgb16 => "rgb16".to_owned(),
            ColorKind::Rgba16 => "rgba16".to_owned(),
            ColorKind::Rgb32F => "rgb32f".to_owned(),
            ColorKind::Rgba32F => "rgba32f".to_owned(),
            ColorKind::Unknown => "unknown_since_non_exhaustive".to_owned(),
        }
    }
}

} // verus!
