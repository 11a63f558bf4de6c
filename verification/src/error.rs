//! Structured parse failures. Every decoding function reports one of these
//! instead of panicking, so the caller can surface the exact cause.

use vstd::prelude::*;

verus! {

/// The single-byte header field whose value was outside its closed set.
#[derive(Clone, Copy, Debug, PartialEq, Eq, Structural)]
pub enum HeaderField {
    ColorType,
    CompressionMethod,
    FilterMethod,
    InterlaceMethod,
}

/// Why a buffer failed to decode.
#[derive(Clone, Copy, Debug, PartialEq, Eq)]
pub enum FormatError {
    /// The first 8 bytes are not the PNG magic sequence.
    BadSignature,
    /// The buffer ends before a required field can be read.
    Truncated,
    /// A 4-byte chunk tag outside the recognized set.
    UnknownChunkType { tag: [u8; 4] },
    /// An image-header chunk whose payload is not exactly 13 bytes long.
    UnexpectedChunkLength { expected: u32, actual: u32 },
    /// A byte value outside the closed set of its header field.
    InvalidEnumValue { field: HeaderField, value: u8 },
}

} // verus!
