//! Chunk-level codec for the PNG container format.
//!
//! A PNG file is an 8-byte signature followed by a sequence of chunks, each
//! a length-prefixed, type-tagged, CRC-protected record. This crate decodes
//! such a buffer into typed chunk records, validates every chunk's checksum,
//! interprets the well-known payloads, supports lookup, insertion, removal
//! and mutation of chunks, and re-serializes the document byte for byte.
//!
//! The central contracts: [`png::Png::decode`] ensures that a document it
//! returns has the input buffer as its wire form, and [`png::Png::encode`]
//! ensures it returns exactly that wire form — together, encoding a decoded
//! buffer reproduces it byte for byte. Every constructor, decoder and
//! mutation of [`chunk::Chunk`] ensures the record's invariant: the length
//! counts the payload bytes and the checksum is the CRC of tag and payload.

pub mod chunk;
pub mod chunk_type;
pub mod chromaticities;
pub mod color;
pub mod color_type;
pub mod crc32;
pub mod endian;
pub mod gamma;
pub mod error;
pub mod filter_method;
pub mod filter_type;
pub mod icc_profile;
pub mod image_header;
pub mod palette;
pub mod png;
pub mod srgb;
pub mod strutil;
pub mod textual;
pub mod transparency;

pub use chunk::Chunk;
pub use chunk::ChunkData;
pub use chunk_type::ChunkType;
pub use color::Color;
pub use color_type::ColorType;
pub use crc32::crc32_of;
pub use error::PngError;
pub use filter_type::FilterType;
pub use png::Png;
