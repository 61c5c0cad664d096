use png::chunk::Chunk;
use png::chunk_type::ChunkType;
use png::error::PngError;
use png::png::Png;

fn ihdr_payload() -> Vec<u8> {
    let mut v = 1u32.to_be_bytes().to_vec();
    v.extend_from_slice(&1u32.to_be_bytes());
    v.extend_from_slice(&[8, 0, 0, 0, 0]);
    v
}

fn text_payload(keyword: &str, text: &str) -> Vec<u8> {
    let mut v = keyword.as_bytes().to_vec();
    v.push(0);
    v.extend_from_slice(text.as_bytes());
    v
}

fn chunk(tag: &str, payload: Vec<u8>) -> Chunk {
    Chunk::new(ChunkType::parse_str(tag).unwrap(), payload)
}

fn testing_document() -> Png {
    Png {
        chunks: vec![
            chunk("IHDR", ihdr_payload()),
            chunk("tEXt", text_payload("Author", "X")),
            chunk("IEND", Vec::new()),
        ],
    }
}

#[test]
fn test_document_round_trip() {
    // encode(decode(buffer)) == buffer, byte for byte.
    let buffer = testing_document().encode();
    let decoded = Png::decode(&buffer).unwrap();
    assert_eq!(decoded.encode(), buffer);
}

#[test]
fn test_document_round_trip_all_known_kinds() {
    let mut chrm: Vec<u8> = Vec::new();
    for v in [31270u32, 32900, 64000, 33000, 30000, 60000, 15000, 6000] {
        chrm.extend_from_slice(&v.to_be_bytes());
    }
    let mut iccp = b"prof".to_vec();
    iccp.push(0);
    iccp.push(0);
    iccp.extend_from_slice(&[1, 2, 3]);
    let doc = Png {
        chunks: vec![
            chunk("IHDR", ihdr_payload()),
            chunk("PLTE", vec![1, 2, 3, 4, 5, 6]),
            chunk("gAMA", vec![0, 1, 0, 0]),
            chunk("cHRM", chrm),
            chunk("sRGB", vec![0]),
            chunk("iCCP", iccp),
            chunk("tRNS", vec![7, 8]),
            chunk("tEXt", text_payload("Comment", "hi")),
            chunk("IDAT", vec![1, 2, 3, 4]),
            chunk("ruSt", vec![9, 9, 9]),
            chunk("IEND", Vec::new()),
        ],
    };
    let buffer = doc.encode();
    let decoded = Png::decode(&buffer).unwrap();
    assert_eq!(decoded.encode(), buffer);
}

#[test]
fn test_document_signature_rejected() {
    let mut buffer = testing_document().encode();
    buffer[0] = 0;
    assert_eq!(Png::decode(&buffer).unwrap_err(), PngError::InvalidHeader);
    assert_eq!(Png::decode(&vec![137, 80]).unwrap_err(), PngError::InvalidHeader);
}

#[test]
fn test_document_truncated_chunk_rejected() {
    let mut buffer = testing_document().encode();
    buffer.pop();
    assert!(Png::decode(&buffer).is_err());
    buffer.truncate(10);
    assert_eq!(Png::decode(&buffer).unwrap_err(), PngError::ChunkParseError);
}

#[test]
fn test_document_crc_flip_rejected() {
    // One flipped checksum bit anywhere fails the whole decode.
    let mut buffer = testing_document().encode();
    let last = buffer.len() - 1;
    buffer[last] ^= 0x80;
    assert_eq!(Png::decode(&buffer).unwrap_err(), PngError::ChunkCrcMismatch);
}

#[test]
fn test_remove_text_chunk_scenario() {
    // Removing the tEXt chunk shrinks the encoding by exactly
    // 12 + payload bytes, and IEND stays last.
    let doc = testing_document();
    let original = doc.encode();
    let removed_payload_len = text_payload("Author", "X").len();

    let mut doc = Png::decode(&original).unwrap();
    let removed = doc.remove("tEXt").unwrap();
    assert_eq!(removed.data(), text_payload("Author", "X"));

    let shrunk = doc.encode();
    assert_eq!(shrunk.len(), original.len() - (12 + removed_payload_len));

    let last = doc.chunk_at(doc.chunk_count() - 1).unwrap();
    assert_eq!(last.chunk_type().render_as_text(), "IEND");
}

#[test]
fn test_find_and_find_position() {
    let doc = testing_document();
    assert_eq!(doc.find_position("IHDR"), Some(0));
    assert_eq!(doc.find_position("tEXt"), Some(1));
    assert_eq!(doc.find_position("IEND"), Some(2));
    assert_eq!(doc.find_position("gAMA"), None);
    assert!(doc.find("tEXt").is_some());
    assert!(doc.find("gAMA").is_none());
    assert_eq!(doc.find("tEXt").unwrap().data(), text_payload("Author", "X"));
}

#[test]
fn test_find_mut_set_data() {
    let mut doc = testing_document();
    let c = doc.find_mut("tEXt").unwrap();
    let new_payload = text_payload("Author", "Y");
    c.set_data(&new_payload);
    assert_eq!(doc.find("tEXt").unwrap().data(), new_payload);
    // The mutated document still round-trips.
    let buffer = doc.encode();
    let decoded = Png::decode(&buffer).unwrap();
    assert_eq!(decoded.encode(), buffer);
}

#[test]
fn test_insert_before_end_found_first() {
    // find_position, then insert at that exact position: re-searching
    // the same tag yields the newly inserted record first.
    let mut doc = Png {
        chunks: vec![
            chunk("IHDR", ihdr_payload()),
            chunk("tEXt", text_payload("Author", "old")),
            chunk("IEND", Vec::new()),
        ],
    };
    let pos = doc.find_position("tEXt").unwrap();
    let fresh = chunk("tEXt", text_payload("Author", "new"));
    doc.insert(pos, fresh).unwrap();
    assert_eq!(doc.find_position("tEXt"), Some(pos));
    assert_eq!(doc.find("tEXt").unwrap().data(), text_payload("Author", "new"));
}

#[test]
fn test_insert_out_of_bounds() {
    let mut doc = testing_document();
    let fresh = chunk("tEXt", text_payload("Author", "new"));
    assert_eq!(doc.insert(4, fresh).unwrap_err(), PngError::IndexOutOfBounds);
    assert_eq!(doc.chunk_count(), 3);
}

#[test]
fn test_remove_errors() {
    let mut doc = testing_document();
    assert_eq!(doc.remove("gAMA").unwrap_err(), PngError::ChunkNotFoundError);
    let mut single = Png { chunks: vec![chunk("IEND", Vec::new())] };
    assert_eq!(single.remove("IEND").unwrap_err(), PngError::ChunksIsEmptyError);
    assert_eq!(single.chunk_count(), 1);
}

#[test]
fn test_document_render() {
    let doc = Png { chunks: vec![chunk("gAMA", vec![0, 1, 0, 0])] };
    assert_eq!(
        doc.render_as_text(),
        format!(
            "Chunk [gAMA]\nLength: 4\nData: Gamma: 65536\nCrc: {}\n",
            doc.chunk_at(0).unwrap().crc()
        )
    );
}

#[test]
fn test_error_messages() {
    assert_eq!(PngError::InvalidBitDepth.message(), "Invalid bit depth");
    assert_eq!(PngError::InvalidHeader.message(), "Invalid PNG header");
    assert_eq!(PngError::ChunkCrcMismatch.message(), "Chunk crc mismatch");
    assert_eq!(PngError::ChunkNotFoundError.message(), "Chunk not found");
    assert_eq!(PngError::ChunksIsEmptyError.message(), "There're no chunks left");
}
