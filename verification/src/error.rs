//! The error vocabulary of the codec.

use vstd::prelude::*;

verus! {

/// Everything that can go wrong while decoding, querying or mutating a
/// document.
///
/// `ChunkTypeParseError` carries the offending byte and its position inside
/// the four-byte tag.
#[derive(Debug, Clone, Copy, PartialEq, Eq, Structural)]
pub enum PngError {
    InvalidBitDepth,
    InvalidColorType,
    InvalidCompressionMethod,
    InvalidFilterMethod,
    InvalidFilterType,
    InvalidHeader,
    InvalidHeaderLength,
    InvalidInterlaceMethod,
    ChunkCrcMismatch,
    ChunkNotFoundError,
    ChunkParseError,
    ChunksIsEmptyError,
    ChunkTypeParseError(u8, usize),
    IndexOutOfBounds,
    EncodingError,
}

impl PngError {
    /// A short human-readable description of the error.
    pub fn message(&self) -> (r: String)
        ensures
            self is InvalidBitDepth ==> r@ == "Invalid bit depth"@,
            self is InvalidColorType ==> r@ == "Invalid color type"@,
            self is InvalidCompressionMethod ==> r@ == "Invalid compression method"@,
            self is InvalidFilterMethod ==> r@ == "Invalid filter method"@,
            self is InvalidFilterType ==> r@ == "Invalid filter type"@,
            self is InvalidHeader ==> r@ == "Invalid PNG header"@,
            self is InvalidHeaderLength ==> r@ == "Invalid header length"@,
            self is InvalidInterlaceMethod ==> r@ == "Invalid interlace method"@,
            self is ChunkCrcMismatch ==> r@ == "Chunk crc mismatch"@,
            self is ChunkNotFoundError ==> r@ == "Chunk not found"@,
            self is ChunkParseError ==> r@ == "Chunk parse error"@,
            self is ChunksIsEmptyError ==> r@ == "There're no chunks left"@,
            self matches PngError::ChunkTypeParseError(_, _) ==> r@
                == "Chunk type parse error: expect [a-zA-Z]"@,
            self is IndexOutOfBounds ==> r@ == "Index out of bounds"@,
            self is EncodingError ==> r@ == "Convert to utf-8 string error"@,
    {
        match self {
            PngError::InvalidBitDepth => "Invalid bit depth".to_owned(),
            PngError::InvalidColorType => "Invalid color type".to_owned(),
            PngError::InvalidCompressionMethod => "Invalid compression method".to_owned(),
            PngError::InvalidFilterMethod => "Invalid filter method".to_owned(),
            PngError::InvalidFilterType => "Invalid filter type".to_owned(),
            PngError::InvalidHeader => "Invalid PNG header".to_owned(),
            PngError::InvalidHeaderLength => "Invalid header length".to_owned(),
            PngError::InvalidInterlaceMethod => "Invalid interlace method".to_owned(),
            PngError::ChunkCrcMismatch => "Chunk crc mismatch".to_owned(),
            PngError::ChunkNotFoundError => "Chunk not found".to_owned(),
            PngError::ChunkParseError => "Chunk parse error".to_owned(),
            PngError::ChunksIsEmptyError => "There're no chunks left".to_owned(),
            PngError::ChunkTypeParseError(_, _) => "Chunk type parse error: expect [a-zA-Z]".to_owned(),
            PngError::IndexOutOfBounds => "Index out of bounds".to_owned(),
            PngError::EncodingError => "Convert to utf-8 string error".to_owned(),
        }
    }
}

} // verus!
