//! cHRM chunk payload: the white point and the primary chromaticities,
//! eight big-endian 32-bit values.

use vstd::prelude::*;
use crate::endian::{lemma_u32_be_round_trip, spec_u32_from_be, spec_u32_to_be, u32_from_be_bytes,
    u32_to_be_vec};
use crate::error::PngError;
use crate::strutil::{spec_dec_chars, u32_to_dec_string};
use vstd::string::StringExecFns;

verus! {

/// Each value is the coordinate times 100000, as the format stores it.
#[derive(Debug, Clone, Copy, PartialEq, Eq, Structural)]
pub struct ChunkChromaticities {
    pub white_point_x: u32,
    pub white_point_y: u32,
    pub red_x: u32,
    pub red_y: u32,
    pub green_x: u32,
    pub green_y: u32,
    pub blue_x: u32,
    pub blue_y: u32,
}

impl ChunkChromaticities {
    /// The 32 payload bytes these values serialize to.
    pub open spec fn spec_bytes(self) -> Seq<u8> {
        spec_u32_to_be(self.white_point_x) + spec_u32_to_be(self.white_point_y) + spec_u32_to_be(
            self.red_x,
        ) + spec_u32_to_be(self.red_y) + spec_u32_to_be(self.green_x) + spec_u32_to_be(
            self.green_y,
        ) + spec_u32_to_be(self.blue_x) + spec_u32_to_be(self.blue_y)
    }

    /// Whether a payload decodes: it must be exactly 32 bytes.
    pub open spec fn spec_parses(raw: Seq<u8>) -> bool {
        raw.len() == 32
    }

    /// The chromaticities a 32-byte payload decodes to.
    pub open spec fn spec_parse(raw: Seq<u8>) -> ChunkChromaticities
        recommends
            Self::spec_parses(raw),
    {
        ChunkChromaticities {
            white_point_x: spec_u32_from_be(raw.subrange(0, 4)),
            white_point_y: spec_u32_from_be(raw.subrange(4, 8)),
            red_x: spec_u32_from_be(raw.subrange(8, 12)),
            red_y: spec_u32_from_be(raw.subrange(12, 16)),
            green_x: spec_u32_from_be(raw.subrange(16, 20)),
            green_y: spec_u32_from_be(raw.subrange(20, 24)),
            blue_x: spec_u32_from_be(raw.subrange(24, 28)),
            blue_y: spec_u32_from_be(raw.subrange(28, 32)),
        }
    }

    /// A payload that decodes re-serializes to the same bytes.
    pub proof fn lemma_parse_round_trip(raw: Seq<u8>)
        requires
            Self::spec_parses(raw),
        ensures
            Self::spec_parse(raw).spec_bytes() == raw,
    {
        lemma_u32_be_round_trip(raw.subrange(0, 4));
        lemma_u32_be_round_trip(raw.subrange(4, 8));
        lemma_u32_be_round_trip(raw.subrange(8, 12));
        lemma_u32_be_round_trip(raw.subrange(12, 16));
        lemma_u32_be_round_trip(raw.subrange(16, 20));
        lemma_u32_be_round_trip(raw.subrange(20, 24));
        lemma_u32_be_round_trip(raw.subrange(24, 28));
        lemma_u32_be_round_trip(raw.subrange(28, 32));
        assert(Self::spec_parse(raw).spec_bytes() =~= raw);
    }

    /// Decodes the fixed 32-byte chromaticities payload.
    pub fn decode(raw: &Vec<u8>) -> (r: Result<ChunkChromaticities, PngError>)
        ensures
            r matches Ok(c) ==> c == Self::spec_parse(raw@) && c.spec_bytes() == raw@,
            r is Ok <==> Self::spec_parses(raw@),
            r matches Err(e) ==> e == PngError::ChunkParseError,
    {
        if raw.len() != 32 {
            return Err(PngError::ChunkParseError);
        }
        let c = ChunkChromaticities {
            white_point_x: u32_from_be_bytes(raw[0], raw[1], raw[2], raw[3]),
            white_point_y: u32_from_be_bytes(raw[4], raw[5], raw[6], raw[7]),
            red_x: u32_from_be_bytes(raw[8], raw[9], raw[10], raw[11]),
            red_y: u32_from_be_bytes(raw[12], raw[13], raw[14], raw[15]),
            green_x: u32_from_be_bytes(raw[16], raw[17], raw[18], raw[19]),
            green_y: u32_from_be_bytes(raw[20], raw[21], raw[22], raw[23]),
            blue_x: u32_from_be_bytes(raw[24], raw[25], raw[26], raw[27]),
            blue_y: u32_from_be_bytes(raw[28], raw[29], raw[30], raw[31]),
        };
        proof {
            assert(raw@.subrange(0, 4) =~= seq![raw@[0], raw@[1], raw@[2], raw@[3]]);
            assert(raw@.subrange(4, 8) =~= seq![raw@[4], raw@[5], raw@[6], raw@[7]]);
            assert(raw@.subrange(8, 12) =~= seq![raw@[8], raw@[9], raw@[10], raw@[11]]);
            assert(raw@.subrange(12, 16) =~= seq![raw@[12], raw@[13], raw@[14], raw@[15]]);
            assert(raw@.subrange(16, 20) =~= seq![raw@[16], raw@[17], raw@[18], raw@[19]]);
            assert(raw@.subrange(20, 24) =~= seq![raw@[20], raw@[21], raw@[22], raw@[23]]);
            assert(raw@.subrange(24, 28) =~= seq![raw@[24], raw@[25], raw@[26], raw@[27]]);
            assert(raw@.subrange(28, 32) =~= seq![raw@[28], raw@[29], raw@[30], raw@[31]]);
            assert(c == Self::spec_parse(raw@));
            Self::lemma_parse_round_trip(raw@);
        }
        Ok(c)
    }

    /// The display form of the chromaticities, one coordinate per line.
    pub open spec fn spec_render(self) -> Seq<char> {
        "cHRM:\nWhite Point x: "@ + spec_dec_chars(self.white_point_x as int)
            + "\n, White Point y: "@ + spec_dec_chars(self.white_point_y as int) + "\n, Red x: "@
            + spec_dec_chars(self.red_x as int) + "\n, Red y: "@ + spec_dec_chars(
            self.red_y as int,
        ) + "\n, Green x: "@ + spec_dec_chars(self.green_x as int) + "\n, Green y: "@
            + spec_dec_chars(self.green_y as int) + "\n, Blue x: "@ + spec_dec_chars(
            self.blue_x as int,
        ) + "\n, Blue y: "@ + spec_dec_chars(self.blue_y as int)
    }

    /// Renders the chromaticities for display.
    pub fn render_as_text(&self) -> (r: String)
        ensures
            r@ == self.spec_render(),
    {
        let mut s = String::new();
        s.append("cHRM:\nWhite Point x: ");
        let d = u32_to_dec_string(self.white_point_x);
        s.append(d.as_str());
        s.append("\n, White Point y: ");
        let d = u32_to_dec_string(self.white_point_y);
        s.append(d.as_str());
        s.append("\n, Red x: ");
        let d = u32_to_dec_string(self.red_x);
        s.append(d.as_str());
        s.append("\n, Red y: ");
        let d = u32_to_dec_string(self.red_y);
        s.append(d.as_str());
        s.append("\n, Green x: ");
        let d = u32_to_dec_string(self.green_x);
        s.append(d.as_str());
        s.append("\n, Green y: ");
        let d = u32_to_dec_string(self.green_y);
        s.append(d.as_str());
        s.append("\n, Blue x: ");
        let d = u32_to_dec_string(self.blue_x);
        s.append(d.as_str());
        s.append("\n, Blue y: ");
        let d = u32_to_dec_string(self.blue_y);
        s.append(d.as_str());
        s
    }

    /// Serializes the chromaticities back to their 32 payload bytes.
    pub fn as_bytes(&self) -> (r: Vec<u8>)
        ensures
            r@ == self.spec_bytes(),
    {
        let mut r = u32_to_be_vec(self.white_point_x);
        let mut t = u32_to_be_vec(self.white_point_y);
        r.append(&mut t);
        let mut t = u32_to_be_vec(self.red_x);
        r.append(&mut t);
        let mut t = u32_to_be_vec(self.red_y);
        r.append(&mut t);
        let mut t = u32_to_be_vec(self.green_x);
        r.append(&mut t);
        let mut t = u32_to_be_vec(self.green_y);
        r.append(&mut t);
        let mut t = u32_to_be_vec(self.blue_x);
        r.append(&mut t);
        let mut t = u32_to_be_vec(self.blue_y);
        r.append(&mut t);
        proof {
            assert(r@ =~= self.spec_bytes());
        }
        r
    }
}

} // verus!
