//! gAMA chunk payload: a single big-endian 32-bit gamma value.

use vstd::prelude::*;
use crate::endian::{lemma_u32_be_round_trip, spec_u32_from_be, spec_u32_to_be, u32_from_be_bytes,
    u32_to_be_vec};
use crate::error::PngError;
use crate::strutil::{spec_dec_chars, u32_to_dec_string};

verus! {

/// Image gamma times 100000, as the format stores it.
#[derive(Debug, Clone, Copy, PartialEq, Eq, Structural)]
pub struct ChunkGamma(pub u32);

impl ChunkGamma {
    /// The four payload bytes this gamma value serializes to.
    pub open spec fn spec_bytes(self) -> Seq<u8> {
        spec_u32_to_be(self.0)
    }

    /// Whether a payload decodes to a gamma value: it must be exactly
    /// four bytes.
    pub open spec fn spec_parses(raw: Seq<u8>) -> bool {
        raw.len() == 4
    }

    /// Decodes the fixed four-byte gamma payload.
    pub fn decode(raw: &Vec<u8>) -> (r: Result<ChunkGamma, PngError>)
        ensures
            r matches Ok(g) ==> g.0 == spec_u32_from_be(raw@) && g.spec_bytes() == raw@,
            r is Ok <==> Self::spec_parses(raw@),
            r matches Err(e) ==> e == PngError::ChunkParseError,
    {
        if raw.len() != 4 {
            return Err(PngError::ChunkParseError);
        }
        let g = ChunkGamma(u32_from_be_bytes(raw[0], raw[1], raw[2], raw[3]));
        proof {
            assert(raw@ =~= seq![raw@[0], raw@[1], raw@[2], raw@[3]]);
            lemma_u32_be_round_trip(raw@);
        }
        Ok(g)
    }

    /// Serializes the gamma value back to its four payload bytes.
    pub fn as_bytes(&self) -> (r: Vec<u8>)
        ensures
            r@ == self.spec_bytes(),
    {
        u32_to_be_vec(self.0)
    }

    /// The display form of the gamma value: its decimal digits.
    pub open spec fn spec_render(self) -> Seq<char> {
        spec_dec_chars(self.0 as int)
    }

    /// Renders the gamma value for display.
    pub fn render_as_text(&self) -> (r: String)
        ensures
            r@ == self.spec_render(),
    {
        u32_to_dec_string(self.0)
    }

    /// The stored value.
    pub fn value(&self) -> (r: u32)
        ensures
            r == self.0,
    {
        self.0
    }
}

} // verus!
