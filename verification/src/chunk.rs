//! One self-delimiting chunk record: 4-byte big-endian length, 4-byte type
//! tag, `length` payload bytes, 4 trailing checksum bytes.

use crate::bytes::be_u32;
use crate::bytes::spec_be_u32;
use crate::error::FormatError;
use vstd::prelude::*;

verus! {

/// The closed set of chunk type tags this decoder recognizes.
#[derive(Clone, Copy, Debug, PartialEq, Eq, Structural)]
pub enum ChunkType {
    ImageHeader,
    Palette,
    ImageData,
    ImageTrailer,
    EmbeddedIccProfile,
}

/// The recognized variant for a 4-byte ASCII tag, or `None` for any other tag.
pub open spec fn spec_chunk_type(t0: u8, t1: u8, t2: u8, t3: u8) -> Option<ChunkType> {
    if t0 == 73 && t1 == 72 && t2 == 68 && t3 == 82 {  // "IHDR"
        Some(ChunkType::ImageHeader)
    } else if t0 == 80 && t1 == 76 && t2 == 84 && t3 == 69 {  // "PLTE"
        Some(ChunkType::Palette)
    } else if t0 == 73 && t1 == 68 && t2 == 65 && t3 == 84 {  // "IDAT"
        Some(ChunkType::ImageData)
    } else if t0 == 73 && t1 == 69 && t2 == 78 && t3 == 68 {  // "IEND"
        Some(ChunkType::ImageTrailer)
    } else if t0 == 105 && t1 == 67 && t2 == 67 && t3 == 80 {  // "iCCP"
        Some(ChunkType::EmbeddedIccProfile)
    } else {
        None
    }
}

impl ChunkType {
    /// Maps a 4-byte ASCII tag to its recognized variant.
    pub fn from_tag(t0: u8, t1: u8, t2: u8, t3: u8) -> (r: Option<ChunkType>)
        ensures
            r == spec_chunk_type(t0, t1, t2, t3),
    {
        if t0 == 73 && t1 == 72 && t2 == 68 && t3 == 82 {
            Some(ChunkType::ImageHeader)
        } else if t0 == 80 && t1 == 76 && t2 == 84 && t3 == 69 {
            Some(ChunkType::Palette)
        } else if t0 == 73 && t1 == 68 && t2 == 65 && t3 == 84 {
            Some(ChunkType::ImageData)
        } else if t0 == 73 && t1 == 69 && t2 == 78 && t3 == 68 {
            Some(ChunkType::ImageTrailer)
        } else if t0 == 105 && t1 == 67 && t2 == 67 && t3 == 80 {
            Some(ChunkType::EmbeddedIccProfile)
        } else {
            None
        }
    }
}

/// One parsed chunk record. `data` borrows the payload from the input buffer;
/// nothing is copied.
#[derive(Debug, PartialEq, Eq)]
#[must_use]
pub struct Chunk<'a> {
    /// Payload byte count, as declared by the record's length field.
    pub length: u32,
    /// The recognized meaning of the record's 4-byte tag.
    pub chunk_type: ChunkType,
    /// The payload: exactly `length` bytes borrowed from the input buffer.
    pub data: &'a [u8],
    /// The 4 trailing bytes after the payload, consumed but not verified.
    pub checksum: [u8; 4],
    /// Total bytes the record occupies: 4 + 4 + length + 4.
    pub chunk_size: usize,
}

/// The declared payload length of the record starting at the head of `file`.
pub open spec fn spec_declared_length(file: Seq<u8>) -> u32
    recommends
        file.len() >= 4,
{
    spec_be_u32(file.subrange(0, 4))
}

/// Whether a whole chunk record can be parsed from the head of `file`: the
/// length and tag fields are present, the tag is recognized, and the declared
/// payload plus checksum fit in the buffer.
pub open spec fn spec_parse_ok(file: Seq<u8>) -> bool {
    &&& file.len() >= 8
    &&& spec_chunk_type(file[4], file[5], file[6], file[7]) is Some
    &&& file.len() >= 12 + spec_declared_length(file)
}

impl<'a> Chunk<'a> {
    /// The record's fields are mutually consistent: the payload view holds
    /// exactly `length` bytes and `chunk_size` counts the whole record.
    pub open spec fn wf(self) -> bool {
        &&& self.data@.len() == self.length
        &&& self.chunk_size == 12 + self.length
    }

    /// Parses one chunk record from the head of `file`: big-endian length,
    /// recognized tag, borrowed payload and checksum, and the total span
    /// `chunk_size` by which a caller advances to the next record.
    pub fn parse(file: &'a [u8]) -> (r: Result<Chunk<'a>, FormatError>)
        ensures
            r is Ok <==> spec_parse_ok(file@),
            r matches Ok(chunk) ==> {
                &&& chunk.wf()
                &&& chunk.length == spec_declared_length(file@)
                &&& Some(chunk.chunk_type) == spec_chunk_type(
                    file@[4],
                    file@[5],
                    file@[6],
                    file@[7],
                )
                &&& chunk.data@ == file@.subrange(8, 8 + chunk.length as int)
                &&& chunk.checksum@ == file@.subrange(
                    8 + chunk.length as int,
                    12 + chunk.length as int,
                )
                &&& chunk.chunk_size == 12 + chunk.length
            },
            r matches Err(e) ==> {
                if file@.len() < 8 {
                    e == FormatError::Truncated
                } else if spec_chunk_type(file@[4], file@[5], file@[6], file@[7]) is None {
                    &&& e matches FormatError::UnknownChunkType { tag }
                    &&& tag@ == file@.subrange(4, 8)
                } else {
                    e == FormatError::Truncated
                }
            },
    {
        if file.len() < 8 {
            return Err(FormatError::Truncated);
        }
        let length = be_u32(file[0], file[1], file[2], file[3]);
        proof {
            crate::bytes::lemma_be_u32_depends_on_prefix(
                seq![file@[0], file@[1], file@[2], file@[3]],
                file@.subrange(0, 4),
            );
        }
        let chunk_type = match ChunkType::from_tag(file[4], file[5], file[6], file[7]) {
            Some(t) => t,
            None => {
                let tag = [file[4], file[5], file[6], file[7]];
                proof {
                    assert(tag@ =~= file@.subrange(4, 8));
                }
                return Err(FormatError::UnknownChunkType { tag });
            },
        };
        let remaining = file.len() - 8;
        if remaining < 4 || (remaining - 4) < length as usize {
            return Err(FormatError::Truncated);
        }
        let data = &file[8..8 + length as usize];
        let c0 = 8 + length as usize;
        let checksum = [file[c0], file[c0 + 1], file[c0 + 2], file[c0 + 3]];
        proof {
            assert(checksum@ =~= file@.subrange(8 + length as int, 12 + length as int));
        }
        Ok(
            Chunk {
                length,
                chunk_type,
                data,
                checksum,
                chunk_size: 12 + length as usize,
            },
        )
    }
}

} // verus!
