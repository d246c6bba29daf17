//! The pipeline's subject: the orchestration-visible description of a
//! decoded image. Pixel storage belongs to the codec collaborators; the
//! pipeline reads and transforms the dimensions, colour tag and depth.

use vstd::prelude::*;
use crate::color::{BitDepth, ColorSpace};

verus! {

/// One decoded image as the pipeline observes it.
#[derive(Clone, Copy, PartialEq, Eq, Structural, Debug)]
pub struct Image {
    pub width: usize,
    pub height: usize,
    pub colorspace: ColorSpace,
    pub depth: BitDepth,
}

impl Image {
    /// Builds an image description.
    pub fn new(width: usize, height: usize, colorspace: ColorSpace, depth: BitDepth) -> (r: Image)
        ensures
            r == (Image { width, height, colorspace, depth }),
    {
        Image { width, height, colorspace, depth }
    }
}

} // verus!
