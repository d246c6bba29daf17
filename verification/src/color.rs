//! The colour and depth tags the orchestration layer reads and routes.
//! Pixel-level conversion mathematics belongs to the codec collaborators;
//! the pipeline only carries and compares these tags.

use vstd::prelude::*;

verus! {

/// The colour interpretation of an image's channels.
#[derive(Clone, Copy, PartialEq, Eq, Structural, Debug)]
pub enum ColorSpace {
    Rgb,
    Rgba,
    YCbCr,
    Luma,
    LumaA,
    Ycck,
    Cmyk,
    Bgr,
    Bgra,
    Argb,
    Hsl,
    Hsv,
    Unknown,
}

/// The storage width of one channel sample. Only eight- and sixteen-bit
/// samples are supported.
#[derive(Clone, Copy, PartialEq, Eq, Structural, Debug)]
pub enum BitDepth {
    Eight,
    Sixteen,
}

} // verus!
