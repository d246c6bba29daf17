//! The error taxonomy: whole-source failures the pipeline propagates, and
//! the decoder- and encoder-side errors of the QOI codec surface.

use vstd::prelude::*;
use crate::color::ColorSpace;
use crate::format::ImageFormat;
use crate::pipeline::PipelineState;
use crate::text::dec_digits;

verus! {

/// A failure that is fatal to the input source being processed.
#[derive(Clone, PartialEq, Debug)]
pub enum ImageErrors {
    /// The format was recognised by signature but no decoder is registered
    /// for it.
    ImageDecoderNotImplemented(ImageFormat),
    /// No registered signature matched at all; carries the `Unknown`
    /// sentinel.
    ImageDecoderNotIncluded(ImageFormat),
    /// The decoder collaborator failed.
    DecodeErrors(String),
    /// An operation failed while the chain was executing.
    OperationsErrors(String),
    /// A chain-construction failure, surfaced with the offending value.
    GenericString(String),
    /// A pipeline transition was requested from a state that does not
    /// allow it; carries the state the pipeline was found in.
    PipelineOutOfOrder(PipelineState),
}

/// Errors possible while the QOI decoder collaborator reads its stream.
#[derive(Clone, PartialEq, Debug)]
pub enum QoiErrors {
    /// The image does not start with the QOI magic bytes `qoif`.
    WrongMagicBytes,
    /// The input buffer does not hold enough bytes to reconstruct the
    /// image: the bytes needed, then the bytes actually left.
    InsufficientData(usize, usize),
    /// The header carries a channel count other than the supported 3 or 4.
    UnknownChannels(u8),
    /// The header carries a colourspace tag other than the supported 0
    /// or 1.
    UnknownColorspace(u8),
    /// A generic message.
    Generic(String),
    /// A generic message that needs no heap allocation.
    GenericStatic(&'static str),
}

impl QoiErrors {
    /// The diagnostic text for this error.
    pub open spec fn spec_message(self) -> Seq<char> {
        match self {
            QoiErrors::WrongMagicBytes => "Wrong magic bytes, expected `qoif` as image start"@,
            QoiErrors::InsufficientData(expected, found) => "Insufficient data required "@
                + dec_digits(expected as nat) + " but remaining stream has "@ + dec_digits(
                found as nat,
            ),
            QoiErrors::UnknownChannels(c) => "Unknown channel number "@ + dec_digits(c as nat)
                + ", expected either 3 or 4"@,
            QoiErrors::UnknownColorspace(c) => "Unknown colorspace number "@ + dec_digits(c as nat)
                + ", expected either 0 or 1"@,
            QoiErrors::Generic(val) => val@,
            QoiErrors::GenericStatic(val) => val@,
        }
    }

    /// Renders the diagnostic text for this error.
    pub fn message(&self) -> (r: String)
        ensures
            r@ == self.spec_message(),
    {
        match self {
            QoiErrors::WrongMagicBytes => "Wrong magic bytes, expected `qoif` as image start"
                .to_owned(),
            QoiErrors::InsufficientData(expected, found) => {
                let mut m = "Insufficient data required ".to_owned();
                let e = crate::text::usize_to_string(*expected);
                m.append(e.as_str());
                m.append(" but remaining stream has ");
                let f = crate::text::usize_to_string(*found);
                m.append(f.as_str());
                m
            },
            QoiErrors::UnknownChannels(c) => {
                let mut m = "Unknown channel number ".to_owned();
                let d = crate::text::u64_to_string(*c as u64);
                m.append(d.as_str());
                m.append(", expected either 3 or 4");
                m
            },
            QoiErrors::UnknownColorspace(c) => {
                let mut m = "Unknown colorspace number ".to_owned();
                let d = crate::text::u64_to_string(*c as u64);
                m.append(d.as_str());
                m.append(", expected either 0 or 1");
                m
            },
            QoiErrors::Generic(val) => val.clone(),
            QoiErrors::GenericStatic(val) => (*val).to_owned(),
        }
    }
}

impl From<&'static str> for QoiErrors {
    /// Wraps a static message, as the decoder's early-return paths do.
    fn from(r: &'static str) -> (res: Self)
        ensures
            res == QoiErrors::GenericStatic(r),
    {
        QoiErrors::GenericStatic(r)
    }
}

impl vstd::std_specs::convert::FromSpecImpl<&'static str> for QoiErrors {
    open spec fn obeys_from_spec() -> bool {
        true
    }

    open spec fn from_spec(r: &'static str) -> Self {
        QoiErrors::GenericStatic(r)
    }
}

/// Errors possible while the QOI encoder collaborator writes its stream.
#[derive(Clone, PartialEq, Debug)]
pub enum QoiEncodeErrors {
    /// The image's colourspace cannot be encoded: the colourspace
    /// encountered, then the colourspaces the encoder supports.
    UnsupportedColorspace(ColorSpace, Vec<ColorSpace>),
    /// The dimensions cannot be represented in a QOI header.
    TooLargeDimensions(usize),
}

} // verus!
