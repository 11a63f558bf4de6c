//! Structural decoding of the PNG container format: the fixed 8-byte file
//! signature, one length-prefixed chunk record, and the typed fields of an
//! image-header chunk payload.
//!
//! The pipeline is a pure transform over an immutable byte buffer supplied by
//! the caller: validate the signature, parse the chunk that follows it, and
//! interpret its payload when its type tag marks it as the image header.

pub mod bytes;
pub mod chunk;
pub mod error;
pub mod header;
pub mod signature;

pub use chunk::Chunk;
pub use chunk::ChunkType;
pub use error::FormatError;
pub use error::HeaderField;
pub use header::ColorType;
pub use header::CompressionMethod;
pub use header::FilterMethod;
pub use header::ImageHeader;
pub use header::InterlaceMethod;
pub use signature::validate_png_signature;
