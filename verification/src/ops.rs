//! The operation model: the closed set of image transforms the chain
//! builder can construct, and the orchestration-visible effect of applying
//! one to an image. Pixel mathematics is the filter collaborators' work;
//! the pipeline tracks what an operation does to an image's dimensions,
//! colour tag and depth, and whether it can fail.

use vstd::prelude::*;
use crate::color::{BitDepth, ColorSpace};
use crate::image::Image;

verus! {

/// The direction a mirror operation reflects towards.
#[derive(Clone, Copy, PartialEq, Eq, Structural, Debug)]
pub enum MirrorMode {
    North,
    South,
    East,
    West,
}

/// The summary statistic a statistic filter computes over a window.
#[derive(Clone, Copy, PartialEq, Eq, Structural, Debug)]
pub enum StatisticOperations {
    Min,
    Max,
    Mean,
}

/// How a threshold filter maps samples around its threshold value.
#[derive(Clone, Copy, PartialEq, Eq, Structural, Debug)]
pub enum ThresholdMethod {
    Binary,
    BinaryInv,
    ThreshTrunc,
    ThreshToZero,
}

/// One image transform, with its typed parameters. Floating-point
/// parameters are carried as their IEEE 754 bit patterns: the pipeline
/// never computes with them, it only hands them to the filter
/// collaborators.
#[derive(Clone, Copy, PartialEq, Eq, Structural, Debug)]
pub enum Operation {
    Flip,
    Flop,
    Transpose,
    Median { radius: usize },
    Statistic { radius: usize, mode: StatisticOperations },
    Mirror { mode: MirrorMode },
    Invert,
    Brighten { value_bits: u32 },
    Crop { width: usize, height: usize, x: usize, y: usize },
    Threshold { value: u16, method: ThresholdMethod },
    StretchContrast { lower: u16, upper: u16 },
    Gamma { value_bits: u32 },
    Contrast { value_bits: u32 },
    Resize { width: usize, height: usize },
    Depth { depth: BitDepth },
    Colorspace { to: ColorSpace },
    AutoOrient,
    Exposure { value_bits: u32 },
    HorizontalFlip,
}

impl StatisticOperations {
    /// Resolves a statistic-mode token. Matching is case-sensitive.
    pub fn from_string_result(s: &str) -> (r: Result<StatisticOperations, String>)
        ensures
            match spec_statistic_of(s@) {
                Some(m) => r == Ok::<StatisticOperations, String>(m),
                None => r matches Err(e) && e@ == "unknown statistic mode "@ + s@,
            },
    {
        if crate::text::str_eq(s, "min") {
            Ok(StatisticOperations::Min)
        } else if crate::text::str_eq(s, "max") {
            Ok(StatisticOperations::Max)
        } else if crate::text::str_eq(s, "mean") {
            Ok(StatisticOperations::Mean)
        } else {
            let mut m = "unknown statistic mode ".to_owned();
            m.append(s);
            Err(m)
        }
    }
}

/// The statistic mode a token names, if any.
pub open spec fn spec_statistic_of(s: Seq<char>) -> Option<StatisticOperations> {
    if s == "min"@ {
        Some(StatisticOperations::Min)
    } else if s == "max"@ {
        Some(StatisticOperations::Max)
    } else if s == "mean"@ {
        Some(StatisticOperations::Mean)
    } else {
        None
    }
}

impl ThresholdMethod {
    /// Resolves a threshold-method token. Matching is case-sensitive.
    pub fn from_string_result(s: &str) -> (r: Result<ThresholdMethod, String>)
        ensures
            match spec_threshold_of(s@) {
                Some(m) => r == Ok::<ThresholdMethod, String>(m),
                None => r matches Err(e) && e@ == "unknown threshold method "@ + s@,
            },
    {
        if crate::text::str_eq(s, "binary") {
            Ok(ThresholdMethod::Binary)
        } else if crate::text::str_eq(s, "binary_inv") {
            Ok(ThresholdMethod::BinaryInv)
        } else if crate::text::str_eq(s, "thresh_trunc") {
            Ok(ThresholdMethod::ThreshTrunc)
        } else if crate::text::str_eq(s, "thresh_to_zero") {
            Ok(ThresholdMethod::ThreshToZero)
        } else {
            let mut m = "unknown threshold method ".to_owned();
            m.append(s);
            Err(m)
        }
    }
}

/// The threshold method a token names, if any.
pub open spec fn spec_threshold_of(s: Seq<char>) -> Option<ThresholdMethod> {
    if s == "binary"@ {
        Some(ThresholdMethod::Binary)
    } else if s == "binary_inv"@ {
        Some(ThresholdMethod::BinaryInv)
    } else if s == "thresh_trunc"@ {
        Some(ThresholdMethod::ThreshTrunc)
    } else if s == "thresh_to_zero"@ {
        Some(ThresholdMethod::ThreshToZero)
    } else {
        None
    }
}

/// Whether applying `op` to `img` succeeds. Only a crop can fail: its
/// region must lie inside the source image.
pub open spec fn spec_apply_ok(op: Operation, img: Image) -> bool {
    match op {
        Operation::Crop { width, height, x, y } => x + width <= img.width && y + height
            <= img.height,
        _ => true,
    }
}

/// The image a successful application produces: a transpose swaps the
/// dimensions, a crop or resize sets them, depth and colourspace
/// conversions set their tag, and every other operation reworks samples
/// without changing the orchestration-visible description.
pub open spec fn spec_apply_result(op: Operation, img: Image) -> Image {
    match op {
        Operation::Transpose => Image { width: img.height, height: img.width, ..img },
        Operation::Crop { width, height, x: _, y: _ } => Image { width, height, ..img },
        Operation::Resize { width, height } => Image { width, height, ..img },
        Operation::Depth { depth } => Image { depth, ..img },
        Operation::Colorspace { to } => Image { colorspace: to, ..img },
        _ => img,
    }
}

/// The diagnostic a failing crop reports.
pub open spec fn crop_bounds_message() -> Seq<char> {
    "crop region exceeds the image bounds"@
}

/// Applies one operation to one image: the capability
/// `apply(image) -> new image or error` the pipeline consumes.
pub fn apply_operation(op: &Operation, img: &Image) -> (r: Result<Image, String>)
    ensures
        spec_apply_ok(*op, *img) ==> r == Ok::<Image, String>(spec_apply_result(*op, *img)),
        !spec_apply_ok(*op, *img) ==> (r matches Err(m) && m@ == crop_bounds_message()),
{
    match op {
        Operation::Transpose => Ok(
            Image {
                width: img.height,
                height: img.width,
                colorspace: img.colorspace,
                depth: img.depth,
            },
        ),
        Operation::Crop { width, height, x, y } => {
            if *width <= img.width && *x <= img.width - *width && *height <= img.height && *y
                <= img.height - *height {
                Ok(Image { width: *width, height: *height, colorspace: img.colorspace, depth: img.depth })
            } else {
                Err("crop region exceeds the image bounds".to_owned())
            }
        },
        Operation::Resize { width, height } => Ok(
            Image { width: *width, height: *height, colorspace: img.colorspace, depth: img.depth },
        ),
        Operation::Depth { depth } => Ok(
            Image { width: img.width, height: img.height, colorspace: img.colorspace, depth: *depth },
        ),
        Operation::Colorspace { to } => Ok(
            Image { width: img.width, height: img.height, colorspace: *to, depth: img.depth },
        ),
        _ => Ok(*img),
    }
}

} // verus!
