//! The ways in which the pass and the codec fail.
use vstd::prelude::*;

verus! {

/// One of the three transformations that the codec chains.
#[derive(Clone, Copy, Debug, PartialEq, Eq)]
pub enum Stage {
    /// Printing a value as JSON text, or parsing and reading such text.
    Json,
    /// Deflating text into a zlib stream, or inflating one.
    Compression,
    /// Writing bytes in the padded standard base64 alphabet, or reading them back.
    Base64,
}

/// A failure of the pass. None is recovered from: the file that caused it is
/// not instrumented.
#[derive(Clone, Copy, Debug, PartialEq, Eq)]
pub enum PassError {
    /// The source map gave no usable line range for a span.
    UnresolvableSpan,
    /// The configuration is neither a flag nor an options object.
    InvalidConfiguration,
    /// The codec failed while encoding, at the given stage.
    EncodingFailure(Stage),
    /// The codec failed while decoding, at the given stage.
    DecodingFailure(Stage),
}

} // verus!
