use pngparse::Chunk;
use pngparse::ColorType;
use pngparse::CompressionMethod;
use pngparse::FilterMethod;
use pngparse::FormatError;
use pngparse::HeaderField;
use pngparse::ImageHeader;
use pngparse::InterlaceMethod;

const SIGNATURE: [u8; 8] = [137, 80, 78, 71, 13, 10, 26, 10];

fn header_chunk_buffer(payload: &[u8]) -> Vec<u8> {
    let mut buf = Vec::new();
    buf.extend_from_slice(&(payload.len() as u32).to_be_bytes());
    buf.extend_from_slice(b"IHDR");
    buf.extend_from_slice(payload);
    buf.extend_from_slice(&[0, 0, 0, 0]);
    buf
}

fn header_payload(
    width: u32,
    height: u32,
    bit_depth: u8,
    color_type: u8,
    compression: u8,
    filter: u8,
    interlace: u8,
) -> Vec<u8> {
    let mut p = Vec::new();
    p.extend_from_slice(&width.to_be_bytes());
    p.extend_from_slice(&height.to_be_bytes());
    p.push(bit_depth);
    p.push(color_type);
    p.push(compression);
    p.push(filter);
    p.push(interlace);
    p
}

#[test]
fn decodes_full_concrete_scenario() {
    // signature + length 13 + "IHDR" + payload + checksum
    let mut buf = SIGNATURE.to_vec();
    buf.extend_from_slice(&[0x00, 0x00, 0x00, 0x0D]);
    buf.extend_from_slice(&[0x49, 0x48, 0x44, 0x52]);
    buf.extend_from_slice(&[
        0x00, 0x00, 0x00, 0x10, 0x00, 0x00, 0x00, 0x10, 0x08, 0x02, 0x00, 0x00, 0x00,
    ]);
    buf.extend_from_slice(&[0xAA, 0xBB, 0xCC, 0xDD]);

    assert_eq!(pngparse::validate_png_signature(&buf), Ok(()));
    let chunk = Chunk::parse(&buf[8..]).unwrap();
    assert_eq!(chunk.length, 13);
    assert_eq!(chunk.chunk_size, 25);
    let header = ImageHeader::decode(&chunk).unwrap();
    assert_eq!(header.width, 16);
    assert_eq!(header.height, 16);
    assert_eq!(header.bit_depth, 8);
    assert_eq!(header.color_type, ColorType::TrueColor);
    assert_eq!(header.compression_method, CompressionMethod::Deflate);
    assert_eq!(header.filter_method, FilterMethod::Adaptive);
    assert_eq!(header.interlace_method, InterlaceMethod::Sequential);
}

#[test]
fn width_and_height_are_decoded_big_endian() {
    // Big-endian [0x00, 0x00, 0x01, 0x00] must decode to 256, never 16777216.
    let payload = header_payload(256, 256, 8, 0, 0, 0, 0);
    assert_eq!(&payload[..4], &[0x00, 0x00, 0x01, 0x00]);
    let buf = header_chunk_buffer(&payload);
    let chunk = Chunk::parse(&buf).unwrap();
    let header = ImageHeader::decode(&chunk).unwrap();
    assert_eq!(header.width, 256);
    assert_eq!(header.height, 256);
}

#[test]
fn round_trips_every_valid_enum_combination() {
    for color_type in [0u8, 2, 3, 4, 6] {
        for interlace in [0u8, 1] {
            let payload = header_payload(640, 480, 8, color_type, 0, 0, interlace);
            let buf = header_chunk_buffer(&payload);
            let chunk = Chunk::parse(&buf).unwrap();
            let header = ImageHeader::decode(&chunk).unwrap();
            let encoded = header.encode_payload();
            assert_eq!(encoded, payload);

            let buf2 = header_chunk_buffer(&encoded);
            let chunk2 = Chunk::parse(&buf2).unwrap();
            let header2 = ImageHeader::decode(&chunk2).unwrap();
            assert_eq!(header2.width, header.width);
            assert_eq!(header2.height, header.height);
            assert_eq!(header2.bit_depth, header.bit_depth);
            assert_eq!(header2.color_type, header.color_type);
            assert_eq!(header2.compression_method, header.compression_method);
            assert_eq!(header2.filter_method, header.filter_method);
            assert_eq!(header2.interlace_method, header.interlace_method);
        }
    }
}

#[test]
fn round_trips_extreme_dimensions() {
    let payload = header_payload(u32::MAX, 1, 16, 6, 0, 0, 1);
    let buf = header_chunk_buffer(&payload);
    let chunk = Chunk::parse(&buf).unwrap();
    let header = ImageHeader::decode(&chunk).unwrap();
    assert_eq!(header.width, u32::MAX);
    assert_eq!(header.height, 1);
    assert_eq!(header.encode_payload(), payload);
}

#[test]
fn color_type_outside_closed_set_is_invalid() {
    for bad in [1u8, 5] {
        let payload = header_payload(16, 16, 8, bad, 0, 0, 0);
        let buf = header_chunk_buffer(&payload);
        let chunk = Chunk::parse(&buf).unwrap();
        assert_eq!(
            ImageHeader::decode(&chunk),
            Err(FormatError::InvalidEnumValue {
                field: HeaderField::ColorType,
                value: bad,
            })
        );
    }
}

#[test]
fn compression_method_outside_closed_set_is_invalid() {
    let payload = header_payload(16, 16, 8, 2, 1, 0, 0);
    let buf = header_chunk_buffer(&payload);
    let chunk = Chunk::parse(&buf).unwrap();
    assert_eq!(
        ImageHeader::decode(&chunk),
        Err(FormatError::InvalidEnumValue {
            field: HeaderField::CompressionMethod,
            value: 1,
        })
    );
}

#[test]
fn filter_method_outside_closed_set_is_invalid() {
    let payload = header_payload(16, 16, 8, 2, 0, 9, 0);
    let buf = header_chunk_buffer(&payload);
    let chunk = Chunk::parse(&buf).unwrap();
    assert_eq!(
        ImageHeader::decode(&chunk),
        Err(FormatError::InvalidEnumValue {
            field: HeaderField::FilterMethod,
            value: 9,
        })
    );
}

#[test]
fn interlace_method_outside_closed_set_is_invalid() {
    let payload = header_payload(16, 16, 8, 2, 0, 0, 2);
    let buf = header_chunk_buffer(&payload);
    let chunk = Chunk::parse(&buf).unwrap();
    assert_eq!(
        ImageHeader::decode(&chunk),
        Err(FormatError::InvalidEnumValue {
            field: HeaderField::InterlaceMethod,
            value: 2,
        })
    );
}

#[test]
fn header_chunk_with_wrong_payload_length_is_rejected() {
    let payload = [0u8; 12];
    let buf = header_chunk_buffer(&payload);
    let chunk = Chunk::parse(&buf).unwrap();
    assert_eq!(
        ImageHeader::decode(&chunk),
        Err(FormatError::UnexpectedChunkLength {
            expected: 13,
            actual: 12,
        })
    );
}

#[test]
fn zero_dimensions_decode_without_validation() {
    // The decoder interprets the raw fields only; it does not reject
    // zero-dimension images.
    let payload = header_payload(0, 0, 8, 2, 0, 0, 0);
    let buf = header_chunk_buffer(&payload);
    let chunk = Chunk::parse(&buf).unwrap();
    let header = ImageHeader::decode(&chunk).unwrap();
    assert_eq!(header.width, 0);
    assert_eq!(header.height, 0);
}

#[test]
fn header_keeps_back_reference_to_its_chunk() {
    let payload = header_payload(1, 2, 1, 0, 0, 0, 0);
    let buf = header_chunk_buffer(&payload);
    let chunk = Chunk::parse(&buf).unwrap();
    let header = ImageHeader::decode(&chunk).unwrap();
    assert_eq!(header.raw_chunk.data, &payload[..]);
    assert_eq!(header.raw_chunk.length, 13);
}

#[test]
fn enum_codecs_invert_each_other() {
    for c in [
        ColorType::GreyScale,
        ColorType::TrueColor,
        ColorType::Indexed,
        ColorType::GreyScaleWithAlpha,
        ColorType::TrueColorWithAlpha,
    ] {
        assert_eq!(ColorType::from_byte(c.to_byte()), Some(c));
    }
    assert_eq!(
        CompressionMethod::from_byte(CompressionMethod::Deflate.to_byte()),
        Some(CompressionMethod::Deflate)
    );
    assert_eq!(
        FilterMethod::from_byte(FilterMethod::Adaptive.to_byte()),
        Some(FilterMethod::Adaptive)
    );
    for i in [InterlaceMethod::Sequential, InterlaceMethod::Adam7] {
        assert_eq!(InterlaceMethod::from_byte(i.to_byte()), Some(i));
    }
}
