//! Pipeline orchestration for image conversion.
//!
//! The crate coordinates format sniffing, decoder/encoder capability
//! resolution, operation-chain construction, pipeline execution and
//! multi-target encode fan-out. Concrete codecs and pixel-level filter
//! algorithms are external collaborators: the pipeline consumes them as
//! opaque capability objects, and this crate states and verifies the
//! orchestration contract around them.

pub mod args;
pub mod chain;
pub mod color;
pub mod dispatch;
pub mod driver;
pub mod errors;
pub mod format;
pub mod image;
pub mod ops;
pub mod pipeline;
pub mod text;
