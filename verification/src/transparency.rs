//! tRNS chunk payload: captured uninterpreted, queried against a color
//! type.

use vstd::prelude::*;
use crate::color_type::ColorType;
use crate::error::PngError;
use crate::strutil::clone_bytes;

verus! {

/// The transparency payload. Its meaning depends on the document's color
/// type, so the bytes are captured as they stand and interpreted only on
/// query.
#[derive(Debug, Clone, PartialEq, Eq)]
pub struct ChunkTransparency(pub Vec<u8>);

impl View for ChunkTransparency {
    type V = Seq<u8>;

    open spec fn view(&self) -> Seq<u8> {
        self.0@
    }
}

impl ChunkTransparency {
    /// The payload bytes, unchanged.
    pub open spec fn spec_bytes(&self) -> Seq<u8> {
        self.0@
    }

    /// Captures a transparency payload; any byte sequence is accepted.
    pub fn decode(raw: &Vec<u8>) -> (r: Result<ChunkTransparency, PngError>)
        ensures
            r matches Ok(t) ==> t@ == raw@ && t.spec_bytes() == raw@,
            r is Ok,
    {
        Ok(ChunkTransparency(clone_bytes(raw)))
    }

    /// The payload bytes back, unchanged.
    pub fn as_bytes(&self) -> (r: Vec<u8>)
        ensures
            r@ == self.spec_bytes(),
    {
        clone_bytes(&self.0)
    }

    /// The transparency entry at `at`, when the color type defines one:
    /// only indexed color does; any other color type yields "not
    /// applicable", never an error.
    pub fn get_transparency(&self, color_type: &ColorType, at: usize) -> (r: Option<&u8>)
        ensures
            r matches Some(v) ==> color_type is PaletteIndex && at < self@.len() && v == self@[at as int],
            r is None <==> !(color_type is PaletteIndex) || at >= self@.len(),
    {
        match color_type {
            ColorType::PaletteIndex => self.0.get(at),
            _ => None,
        }
    }
}

} // verus!
