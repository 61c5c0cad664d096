use png::chunk::{Chunk, ChunkData};
use png::chunk_type::ChunkType;
use png::error::PngError;

fn testing_chunk() -> Chunk {
    let data_length: u32 = 42;
    let chunk_type = "RuSt".as_bytes();
    let message_bytes = "This is where your secret message will be!".as_bytes();
    let crc: u32 = 2882656334;

    let chunk_data: Vec<u8> = data_length
        .to_be_bytes()
        .iter()
        .chain(chunk_type.iter())
        .chain(message_bytes.iter())
        .chain(crc.to_be_bytes().iter())
        .copied()
        .collect();

    Chunk::decode(&chunk_data).unwrap()
}

#[test]
fn test_new_chunk() {
    let chunk_type = ChunkType::parse_str("RuSt").unwrap();
    let data = "This is where your secret message will be!".as_bytes().to_vec();
    let chunk = Chunk::new(chunk_type, data);
    assert_eq!(chunk.length(), 42);
    assert_eq!(chunk.crc(), 2882656334);
}

#[test]
fn test_chunk_length() {
    let chunk = testing_chunk();
    assert_eq!(chunk.length(), 42);
}

#[test]
fn test_chunk_type() {
    let chunk = testing_chunk();
    assert_eq!(chunk.chunk_type().render_as_text(), String::from("RuSt"));
}

#[test]
fn test_chunk_string() {
    let chunk = testing_chunk();
    let chunk_string = chunk.data_as_string().unwrap();
    let expected_chunk_string = String::from("This is where your secret message will be!");
    assert_eq!(chunk_string, expected_chunk_string);
}

#[test]
fn test_chunk_crc() {
    let chunk = testing_chunk();
    assert_eq!(chunk.crc(), 2882656334);
}

#[test]
fn test_valid_chunk_from_bytes() {
    let data_length: u32 = 42;
    let chunk_type = "RuSt".as_bytes();
    let message_bytes = "This is where your secret message will be!".as_bytes();
    let crc: u32 = 2882656334;

    let chunk_data: Vec<u8> = data_length
        .to_be_bytes()
        .iter()
        .chain(chunk_type.iter())
        .chain(message_bytes.iter())
        .chain(crc.to_be_bytes().iter())
        .copied()
        .collect();

    let chunk = Chunk::decode(&chunk_data).unwrap();

    let chunk_string = chunk.data_as_string().unwrap();
    let expected_chunk_string = String::from("This is where your secret message will be!");

    assert_eq!(chunk.length(), 42);
    assert_eq!(chunk.chunk_type().render_as_text(), String::from("RuSt"));
    assert_eq!(chunk_string, expected_chunk_string);
    assert_eq!(chunk.crc(), 2882656334);
}

#[test]
fn test_invalid_chunk_from_bytes() {
    let data_length: u32 = 42;
    let chunk_type = "RuSt".as_bytes();
    let message_bytes = "This is where your secret message will be!".as_bytes();
    let crc: u32 = 2882656333;

    let chunk_data: Vec<u8> = data_length
        .to_be_bytes()
        .iter()
        .chain(chunk_type.iter())
        .chain(message_bytes.iter())
        .chain(crc.to_be_bytes().iter())
        .copied()
        .collect();

    let chunk = Chunk::decode(&chunk_data);

    assert!(chunk.is_err());
}

#[test]
pub fn test_chunk_trait_impls() {
    let data_length: u32 = 42;
    let chunk_type = "RuSt".as_bytes();
    let message_bytes = "This is where your secret message will be!".as_bytes();
    let crc: u32 = 2882656334;

    let chunk_data: Vec<u8> = data_length
        .to_be_bytes()
        .iter()
        .chain(chunk_type.iter())
        .chain(message_bytes.iter())
        .chain(crc.to_be_bytes().iter())
        .copied()
        .collect();

    let chunk: Chunk = Chunk::decode(&chunk_data).unwrap();

    let _chunk_string = chunk.render_as_text();
}

#[test]
fn test_chunk_crc_flip_rejected() {
    // Flipping one bit of the stored checksum must fail with
    // ChunkCrcMismatch and produce no record.
    let chunk = testing_chunk();
    let mut wire = chunk.as_bytes();
    let last = wire.len() - 1;
    wire[last] ^= 0x01;
    let result = Chunk::decode(&wire);
    assert_eq!(result.unwrap_err(), PngError::ChunkCrcMismatch);
}

#[test]
fn test_chunk_wire_round_trip() {
    let chunk = testing_chunk();
    let wire = chunk.as_bytes();
    let again = Chunk::decode(&wire).unwrap();
    let wire2 = again.as_bytes();
    assert_eq!(wire, wire2);
}

#[test]
fn test_chunk_set_data_refreshes_length_and_crc() {
    let mut chunk = testing_chunk();
    let new_data = b"short".to_vec();
    chunk.set_data(&new_data);
    assert_eq!(chunk.length(), 5);
    assert_eq!(chunk.data(), new_data);
    // The checksum is recomputed over tag and new payload.
    let checksum = crc::Crc::<u32>::new(&crc::CRC_32_ISO_HDLC);
    let expected: Vec<u8> = b"RuSt".iter().chain(new_data.iter()).copied().collect();
    assert_eq!(chunk.crc(), checksum.checksum(&expected));
}

#[test]
fn test_chunk_length_field_must_match_span() {
    // A length field that does not count the payload bytes present is
    // rejected.
    let chunk = testing_chunk();
    let mut wire = chunk.as_bytes();
    wire[3] = 41;
    let result = Chunk::decode(&wire);
    assert_eq!(result.unwrap_err(), PngError::ChunkParseError);
}

#[test]
fn test_chunk_data_as_string_rejects_bad_utf8() {
    let chunk_type = ChunkType::parse_str("RuSt").unwrap();
    let chunk = Chunk::new(chunk_type, vec![0xff, 0xfe]);
    assert_eq!(chunk.data_as_string().unwrap_err(), PngError::EncodingError);
}

#[test]
fn test_chunk_data_variant_dispatch() {
    // A gAMA payload is interpreted; an unknown tag passes through.
    let gamma_chunk = Chunk::new(ChunkType::parse_str("gAMA").unwrap(), vec![0, 1, 0, 0]);
    match gamma_chunk.chunk_data() {
        ChunkData::Gamma(g) => assert_eq!(g.value(), 65536),
        _ => panic!("gAMA payload must decode to the gamma variant"),
    }
    let other_chunk = Chunk::new(ChunkType::parse_str("ruSt").unwrap(), vec![1, 2, 3]);
    match other_chunk.chunk_data() {
        ChunkData::Other(v) => assert_eq!(v, &vec![1, 2, 3]),
        _ => panic!("an unrecognized tag must keep its bytes uninterpreted"),
    }
}

#[test]
fn test_chunk_new_keeps_bad_payload_uninterpreted() {
    // Construction never fails: a malformed gAMA payload is kept as
    // uninterpreted bytes, still checksummed.
    let chunk = Chunk::new(ChunkType::parse_str("gAMA").unwrap(), vec![1, 2, 3]);
    assert_eq!(chunk.length(), 3);
    match chunk.chunk_data() {
        ChunkData::Other(v) => assert_eq!(v, &vec![1, 2, 3]),
        _ => panic!("bytes the codec rejects must stay uninterpreted"),
    }
    assert_eq!(chunk.data(), vec![1, 2, 3]);
}
