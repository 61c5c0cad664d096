use png::chunk_type::ChunkType;
use png::error::PngError;

#[test]
pub fn test_chunk_type_from_bytes() {
    let expected = [82, 117, 83, 116];
    let actual = ChunkType::parse([82, 117, 83, 116]).unwrap();

    assert_eq!(expected, actual.bytes());
}

#[test]
pub fn test_chunk_type_from_str() {
    let expected = ChunkType::parse([82, 117, 83, 116]).unwrap();
    let actual = ChunkType::parse_str("RuSt").unwrap();
    assert_eq!(expected, actual);
}

#[test]
pub fn test_chunk_type_is_critical() {
    let chunk = ChunkType::parse_str("RuSt").unwrap();
    assert!(chunk.is_critical());
}

#[test]
pub fn test_chunk_type_is_not_critical() {
    let chunk = ChunkType::parse_str("ruSt").unwrap();
    assert!(!chunk.is_critical());
}

#[test]
pub fn test_chunk_type_is_public() {
    let chunk = ChunkType::parse_str("RUSt").unwrap();
    assert!(chunk.is_public());
}

#[test]
pub fn test_chunk_type_is_not_public() {
    let chunk = ChunkType::parse_str("RuSt").unwrap();
    assert!(!chunk.is_public());
}

#[test]
pub fn test_chunk_type_is_reserved_bit_valid() {
    let chunk = ChunkType::parse_str("RuSt").unwrap();
    assert!(chunk.is_reserved_bit_valid());
}

#[test]
pub fn test_chunk_type_is_reserved_bit_invalid() {
    let chunk = ChunkType::parse_str("Rust").unwrap();
    assert!(!chunk.is_reserved_bit_valid());
}

#[test]
pub fn test_chunk_type_is_safe_to_copy() {
    let chunk = ChunkType::parse_str("RuSt").unwrap();
    assert!(chunk.is_safe_to_copy());
}

#[test]
pub fn test_chunk_type_is_unsafe_to_copy() {
    let chunk = ChunkType::parse_str("RuST").unwrap();
    assert!(!chunk.is_safe_to_copy());
}

#[test]
pub fn test_valid_chunk_is_valid() {
    let chunk = ChunkType::parse_str("RuSt").unwrap();
    assert!(chunk.is_valid());
}

#[test]
pub fn test_invalid_chunk_is_valid() {
    let chunk = ChunkType::parse_str("Rust").unwrap();
    assert!(!chunk.is_valid());

    let chunk = ChunkType::parse_str("Ru1t");
    assert!(chunk.is_err());
}

#[test]
pub fn test_chunk_type_string() {
    let chunk = ChunkType::parse_str("RuSt").unwrap();
    assert_eq!(&chunk.render_as_text(), "RuSt");
}

#[test]
pub fn test_chunk_type_trait_impls() {
    let chunk_type_1: ChunkType = ChunkType::parse([82, 117, 83, 116]).unwrap();
    let chunk_type_2: ChunkType = ChunkType::parse_str("RuSt").unwrap();
    let _chunk_string = chunk_type_1.render_as_text();
    let _are_chunks_equal = chunk_type_1 == chunk_type_2;
}

#[test]
fn test_chunk_type_parse_reports_byte_and_position() {
    let err = ChunkType::parse_str("Ru1t").unwrap_err();
    assert_eq!(err, PngError::ChunkTypeParseError(b'1', 2));

    let err = ChunkType::parse([65, 66, 67, 33]).unwrap_err();
    assert_eq!(err, PngError::ChunkTypeParseError(33, 3));
}

#[test]
fn test_chunk_type_parse_str_wrong_length() {
    let err = ChunkType::parse_str("IHD").unwrap_err();
    assert_eq!(err, PngError::ChunkParseError);
    let err = ChunkType::parse_str("IHDRX").unwrap_err();
    assert_eq!(err, PngError::ChunkParseError);
}
