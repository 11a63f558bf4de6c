//! The image-header chunk payload: 13 bytes carrying the image dimensions,
//! bit depth, and four single-byte codes drawn from closed enumerations.

use crate::bytes::be_bytes;
use crate::bytes::be_u32;
use crate::bytes::lemma_be_round_trip;
use crate::bytes::lemma_be_u32_depends_on_prefix;
use crate::bytes::spec_be_bytes;
use crate::bytes::spec_be_u32;
use crate::chunk::Chunk;
use crate::error::FormatError;
use crate::error::HeaderField;
use vstd::prelude::*;

verus! {

/// Which color channels a pixel carries.
#[derive(Clone, Copy, Debug, PartialEq, Eq, Structural)]
pub enum ColorType {
    GreyScale,
    TrueColor,
    Indexed,
    GreyScaleWithAlpha,
    TrueColorWithAlpha,
}

/// How the image-data stream is compressed.
#[derive(Clone, Copy, Debug, PartialEq, Eq, Structural)]
pub enum CompressionMethod {
    Deflate,
}

/// How scanlines are filtered before compression.
#[derive(Clone, Copy, Debug, PartialEq, Eq, Structural)]
pub enum FilterMethod {
    Adaptive,
}

/// Whether scanlines are stored sequentially or in Adam7 progressive order.
#[derive(Clone, Copy, Debug, PartialEq, Eq, Structural)]
pub enum InterlaceMethod {
    Sequential,
    Adam7,
}

/// The color type encoded by `v`, or `None` outside the closed set {0,2,3,4,6}.
pub open spec fn spec_color_type(v: u8) -> Option<ColorType> {
    match v {
        0 => Some(ColorType::GreyScale),
        2 => Some(ColorType::TrueColor),
        3 => Some(ColorType::Indexed),
        4 => Some(ColorType::GreyScaleWithAlpha),
        6 => Some(ColorType::TrueColorWithAlpha),
        _ => None,
    }
}

/// The byte code of a color type; inverse of `spec_color_type`.
pub open spec fn spec_color_type_byte(c: ColorType) -> u8 {
    match c {
        ColorType::GreyScale => 0,
        ColorType::TrueColor => 2,
        ColorType::Indexed => 3,
        ColorType::GreyScaleWithAlpha => 4,
        ColorType::TrueColorWithAlpha => 6,
    }
}

/// The compression method encoded by `v`, or `None` outside the closed set {0}.
pub open spec fn spec_compression_method(v: u8) -> Option<CompressionMethod> {
    match v {
        0 => Some(CompressionMethod::Deflate),
        _ => None,
    }
}

/// The byte code of a compression method; inverse of `spec_compression_method`.
pub open spec fn spec_compression_method_byte(c: CompressionMethod) -> u8 {
    match c {
        CompressionMethod::Deflate => 0,
    }
}

/// The filter method encoded by `v`, or `None` outside the closed set {0}.
pub open spec fn spec_filter_method(v: u8) -> Option<FilterMethod> {
    match v {
        0 => Some(FilterMethod::Adaptive),
        _ => None,
    }
}

/// The byte code of a filter method; inverse of `spec_filter_method`.
pub open spec fn spec_filter_method_byte(f: FilterMethod) -> u8 {
    match f {
        FilterMethod::Adaptive => 0,
    }
}

/// The interlace method encoded by `v`, or `None` outside the closed set {0,1}.
pub open spec fn spec_interlace_method(v: u8) -> Option<InterlaceMethod> {
    match v {
        0 => Some(InterlaceMethod::Sequential),
        1 => Some(InterlaceMethod::Adam7),
        _ => None,
    }
}

/// The byte code of an interlace method; inverse of `spec_interlace_method`.
pub open spec fn spec_interlace_method_byte(i: InterlaceMethod) -> u8 {
    match i {
        InterlaceMethod::Sequential => 0,
        InterlaceMethod::Adam7 => 1,
    }
}

impl ColorType {
    /// Decodes a color type from its byte code.
    pub fn from_byte(v: u8) -> (r: Option<ColorType>)
        ensures
            r == spec_color_type(v),
    {
        match v {
            0 => Some(ColorType::GreyScale),
            2 => Some(ColorType::TrueColor),
            3 => Some(ColorType::Indexed),
            4 => Some(ColorType::GreyScaleWithAlpha),
            6 => Some(ColorType::TrueColorWithAlpha),
            _ => None,
        }
    }

    /// The byte code this color type is written as.
    pub fn to_byte(self) -> (b: u8)
        ensures
            b == spec_color_type_byte(self),
    {
        match self {
            ColorType::GreyScale => 0,
            ColorType::TrueColor => 2,
            ColorType::Indexed => 3,
            ColorType::GreyScaleWithAlpha => 4,
            ColorType::TrueColorWithAlpha => 6,
        }
    }
}

impl CompressionMethod {
    /// Decodes a compression method from its byte code.
    pub fn from_byte(v: u8) -> (r: Option<CompressionMethod>)
        ensures
            r == spec_compression_method(v),
    {
        match v {
            0 => Some(CompressionMethod::Deflate),
            _ => None,
        }
    }

    /// The byte code this compression method is written as.
    pub fn to_byte(self) -> (b: u8)
        ensures
            b == spec_compression_method_byte(self),
    {
        match self {
            CompressionMethod::Deflate => 0,
        }
    }
}

impl FilterMethod {
    /// Decodes a filter method from its byte code.
    pub fn from_byte(v: u8) -> (r: Option<FilterMethod>)
        ensures
            r == spec_filter_method(v),
    {
        match v {
            0 => Some(FilterMethod::Adaptive),
            _ => None,
        }
    }

    /// The byte code this filter method is written as.
    pub fn to_byte(self) -> (b: u8)
        ensures
            b == spec_filter_method_byte(self),
    {
        match self {
            FilterMethod::Adaptive => 0,
        }
    }
}

impl InterlaceMethod {
    /// Decodes an interlace method from its byte code.
    pub fn from_byte(v: u8) -> (r: Option<InterlaceMethod>)
        ensures
            r == spec_interlace_method(v),
    {
        match v {
            0 => Some(InterlaceMethod::Sequential),
            1 => Some(InterlaceMethod::Adam7),
            _ => None,
        }
    }

    /// The byte code this interlace method is written as.
    pub fn to_byte(self) -> (b: u8)
        ensures
            b == spec_interlace_method_byte(self),
    {
        match self {
            InterlaceMethod::Sequential => 0,
            InterlaceMethod::Adam7 => 1,
        }
    }
}

/// The number of payload bytes an image-header chunk must carry.
pub open spec fn spec_header_payload_len() -> int {
    13
}

/// Decoded semantics of an image-header chunk payload. Holds a non-owning
/// back-reference to the chunk it was decoded from.
#[derive(Debug, PartialEq, Eq)]
pub struct ImageHeader<'a> {
    /// The chunk this header was decoded from.
    pub raw_chunk: &'a Chunk<'a>,
    /// Image height in pixels, from payload bytes 4..8, big-endian.
    pub height: u32,
    /// Image width in pixels, from payload bytes 0..4, big-endian.
    pub width: u32,
    /// Bits per sample or per palette index, from payload byte 8.
    pub bit_depth: u8,
    /// Color model, from payload byte 9.
    pub color_type: ColorType,
    /// Compression method, from payload byte 10.
    pub compression_method: CompressionMethod,
    /// Filter method, from payload byte 11.
    pub filter_method: FilterMethod,
    /// Interlace method, from payload byte 12.
    pub interlace_method: InterlaceMethod,
}

/// Whether a 13-byte payload decodes without error: each single-byte code is
/// inside its closed set.
pub open spec fn spec_header_codes_ok(d: Seq<u8>) -> bool
    recommends
        d.len() == spec_header_payload_len(),
{
    &&& spec_color_type(d[9]) is Some
    &&& spec_compression_method(d[10]) is Some
    &&& spec_filter_method(d[11]) is Some
    &&& spec_interlace_method(d[12]) is Some
}

/// Whether `h` holds exactly the fields encoded by the payload `d`.
pub open spec fn spec_header_matches(h: ImageHeader<'_>, d: Seq<u8>) -> bool
    recommends
        d.len() == spec_header_payload_len(),
{
    &&& h.width == spec_be_u32(d.subrange(0, 4))
    &&& h.height == spec_be_u32(d.subrange(4, 8))
    &&& h.bit_depth == d[8]
    &&& Some(h.color_type) == spec_color_type(d[9])
    &&& Some(h.compression_method) == spec_compression_method(d[10])
    &&& Some(h.filter_method) == spec_filter_method(d[11])
    &&& Some(h.interlace_method) == spec_interlace_method(d[12])
}

impl<'a> ImageHeader<'a> {
    /// Interprets the payload of an image-header chunk: width and height as
    /// big-endian 32-bit integers, then five single-byte fields, of which the
    /// last four are decoded through their closed enumerations.
    pub fn decode(chunk: &'a Chunk<'a>) -> (r: Result<ImageHeader<'a>, FormatError>)
        requires
            chunk.wf(),
            chunk.chunk_type is ImageHeader,
        ensures
            r is Ok <==> chunk.data@.len() == spec_header_payload_len()
                && spec_header_codes_ok(chunk.data@),
            r matches Ok(h) ==> spec_header_matches(h, chunk.data@) && h.raw_chunk == chunk,
            r matches Err(e) ==> {
                let d = chunk.data@;
                if d.len() != spec_header_payload_len() {
                    e == (FormatError::UnexpectedChunkLength { expected: 13, actual: chunk.length })
                } else if spec_color_type(d[9]) is None {
                    e == (FormatError::InvalidEnumValue {
                        field: HeaderField::ColorType,
                        value: d[9],
                    })
                } else if spec_compression_method(d[10]) is None {
                    e == (FormatError::InvalidEnumValue {
                        field: HeaderField::CompressionMethod,
                        value: d[10],
                    })
                } else if spec_filter_method(d[11]) is None {
                    e == (FormatError::InvalidEnumValue {
                        field: HeaderField::FilterMethod,
                        value: d[11],
                    })
                } else {
                    e == (FormatError::InvalidEnumValue {
                        field: HeaderField::InterlaceMethod,
                        value: d[12],
                    })
                }
            },
    {
        let data = chunk.data;
        if data.len() != 13 {
            return Err(FormatError::UnexpectedChunkLength { expected: 13, actual: chunk.length });
        }
        let width = be_u32(data[0], data[1], data[2], data[3]);
        let height = be_u32(data[4], data[5], data[6], data[7]);
        proof {
            lemma_be_u32_depends_on_prefix(
                seq![data@[0], data@[1], data@[2], data@[3]],
                data@.subrange(0, 4),
            );
            lemma_be_u32_depends_on_prefix(
                seq![data@[4], data@[5], data@[6], data@[7]],
                data@.subrange(4, 8),
            );
        }
        let bit_depth = data[8];
        let color_type = match ColorType::from_byte(data[9]) {
            Some(c) => c,
            None => {
                return Err(FormatError::InvalidEnumValue {
                    field: HeaderField::ColorType,
                    value: data[9],
                });
            },
        };
        let compression_method = match CompressionMethod::from_byte(data[10]) {
            Some(c) => c,
            None => {
                return Err(FormatError::InvalidEnumValue {
                    field: HeaderField::CompressionMethod,
                    value: data[10],
                });
            },
        };
        let filter_method = match FilterMethod::from_byte(data[11]) {
            Some(f) => f,
            None => {
                return Err(FormatError::InvalidEnumValue {
                    field: HeaderField::FilterMethod,
                    value: data[11],
                });
            },
        };
        let interlace_method = match InterlaceMethod::from_byte(data[12]) {
            Some(i) => i,
            None => {
                return Err(FormatError::InvalidEnumValue {
                    field: HeaderField::InterlaceMethod,
                    value: data[12],
                });
            },
        };
        Ok(
            ImageHeader {
                raw_chunk: chunk,
                width,
                height,
                bit_depth,
                color_type,
                compression_method,
                filter_method,
                interlace_method,
            },
        )
    }

    /// Writes this header's fields back into a 13-byte payload, the exact
    /// inverse of `decode`.
    pub fn encode_payload(&self) -> (p: Vec<u8>)
        ensures
            p@ == spec_encode_header(
                self.width,
                self.height,
                self.bit_depth,
                self.color_type,
                self.compression_method,
                self.filter_method,
                self.interlace_method,
            ),
    {
        let mut p: Vec<u8> = Vec::new();
        let (w0, w1, w2, w3) = be_bytes(self.width);
        let (h0, h1, h2, h3) = be_bytes(self.height);
        p.push(w0);
        p.push(w1);
        p.push(w2);
        p.push(w3);
        p.push(h0);
        p.push(h1);
        p.push(h2);
        p.push(h3);
        p.push(self.bit_depth);
        p.push(self.color_type.to_byte());
        p.push(self.compression_method.to_byte());
        p.push(self.filter_method.to_byte());
        p.push(self.interlace_method.to_byte());
        proof {
            assert(p@ =~= spec_encode_header(
                self.width,
                self.height,
                self.bit_depth,
                self.color_type,
                self.compression_method,
                self.filter_method,
                self.interlace_method,
            ));
        }
        p
    }
}

/// The 13-byte payload that encodes the given header fields: width and height
/// big-endian, then the five single-byte codes.
pub open spec fn spec_encode_header(
    width: u32,
    height: u32,
    bit_depth: u8,
    color_type: ColorType,
    compression_method: CompressionMethod,
    filter_method: FilterMethod,
    interlace_method: InterlaceMethod,
) -> Seq<u8> {
    spec_be_bytes(width) + spec_be_bytes(height) + seq![
        bit_depth,
        spec_color_type_byte(color_type),
        spec_compression_method_byte(compression_method),
        spec_filter_method_byte(filter_method),
        spec_interlace_method_byte(interlace_method),
    ]
}

/// Encoding any combination of typed header fields into a 13-byte payload and
/// decoding that payload reproduces the fields exactly.
pub proof fn lemma_header_round_trip(
    width: u32,
    height: u32,
    bit_depth: u8,
    color_type: ColorType,
    compression_method: CompressionMethod,
    filter_method: FilterMethod,
    interlace_method: InterlaceMethod,
)
    ensures
        ({
            let p = spec_encode_header(
                width,
                height,
                bit_depth,
                color_type,
                compression_method,
                filter_method,
                interlace_method,
            );
            &&& p.len() == spec_header_payload_len()
            &&& spec_header_codes_ok(p)
            &&& spec_be_u32(p.subrange(0, 4)) == width
            &&& spec_be_u32(p.subrange(4, 8)) == height
            &&& p[8] == bit_depth
            &&& spec_color_type(p[9]) == Some(color_type)
            &&& spec_compression_method(p[10]) == Some(compression_method)
            &&& spec_filter_method(p[11]) == Some(filter_method)
            &&& spec_interlace_method(p[12]) == Some(interlace_method)
        }),
{
    let p = spec_encode_header(
        width,
        height,
        bit_depth,
        color_type,
        compression_method,
        filter_method,
        interlace_method,
    );
    assert(p.subrange(0, 4) =~= spec_be_bytes(width));
    assert(p.subrange(4, 8) =~= spec_be_bytes(height));
    lemma_be_round_trip(width);
    lemma_be_round_trip(height);
}

} // verus!
