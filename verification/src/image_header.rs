//! IHDR (image header) chunk payload.

use vstd::prelude::*;
use crate::color_type::ColorType;
use crate::endian::{lemma_u32_be_round_trip, spec_u32_from_be, spec_u32_to_be, u32_from_be_bytes,
    u32_to_be_vec};
use crate::error::PngError;
use crate::strutil::{spec_dec_chars, u32_to_dec_string};
use vstd::string::StringExecFns;

verus! {

/// The number of payload bytes of a well-formed image header chunk.
pub const IMAGE_HEADER_CHUNK_DATA_LEN: usize = 13;

/// IHDR (Image header) chunk.
///
/// Payload layout:
/// width: 4 bytes, height: 4 bytes, bit depth: 1 byte, color type: 1 byte,
/// compression method: 1 byte, filter method: 1 byte, interlace method:
/// 1 byte; multi-byte fields big-endian.
#[derive(Debug, Clone, Copy, PartialEq, Eq, Structural)]
pub struct ChunkImageHeader {
    pub width: u32,
    pub height: u32,
    pub bit_depth: u8,
    pub color_type: ColorType,
    pub compression_method: u8,
    pub filter_method: u8,
    pub interlace_method: u8,
}

/// Whether a bit depth is legal under a color type byte: grayscale (0):
/// 1/2/4/8/16; truecolor (2): 8/16; indexed (3): 1/2/4/8; grayscale with
/// alpha (4): 8/16; truecolor with alpha (6): 8/16.
pub open spec fn spec_depth_ok(color: u8, depth: u8) -> bool {
    if color == 0 {
        depth == 1 || depth == 2 || depth == 4 || depth == 8 || depth == 16
    } else if color == 2 || color == 4 || color == 6 {
        depth == 8 || depth == 16
    } else if color == 3 {
        depth == 1 || depth == 2 || depth == 4 || depth == 8
    } else {
        false
    }
}

impl ChunkImageHeader {
    /// Field-level well-formedness: the bit depth is legal for the color
    /// type, the compression and filter methods are 0 and the interlace
    /// method is 0 or 1.
    pub open spec fn wf(self) -> bool {
        &&& spec_depth_ok(self.color_type.spec_byte(), self.bit_depth)
        &&& self.compression_method == 0
        &&& self.filter_method == 0
        &&& (self.interlace_method == 0 || self.interlace_method == 1)
    }

    /// The 13 payload bytes this header serializes to.
    pub open spec fn spec_bytes(self) -> Seq<u8> {
        spec_u32_to_be(self.width) + spec_u32_to_be(self.height) + seq![
            self.bit_depth,
            self.color_type.spec_byte(),
            self.compression_method,
            self.filter_method,
            self.interlace_method,
        ]
    }

    /// Whether a payload decodes to a header.
    pub open spec fn spec_parses(raw: Seq<u8>) -> bool {
        &&& raw.len() == 13
        &&& ColorType::spec_try_from(raw[9]) is Ok
        &&& spec_depth_ok(raw[9], raw[8])
        &&& raw[10] == 0
        &&& raw[11] == 0
        &&& (raw[12] == 0 || raw[12] == 1)
    }

    /// The header a well-formed payload decodes to.
    pub open spec fn spec_parse(raw: Seq<u8>) -> ChunkImageHeader
        recommends
            Self::spec_parses(raw),
    {
        ChunkImageHeader {
            width: spec_u32_from_be(raw.subrange(0, 4)),
            height: spec_u32_from_be(raw.subrange(4, 8)),
            bit_depth: raw[8],
            color_type: ColorType::spec_try_from(raw[9])->Ok_0,
            compression_method: raw[10],
            filter_method: raw[11],
            interlace_method: raw[12],
        }
    }

    /// The error a malformed payload is rejected with: each field is
    /// validated in payload order, the length first.
    pub open spec fn spec_err(raw: Seq<u8>) -> PngError {
        if raw.len() != 13 {
            PngError::InvalidHeaderLength
        } else if !(ColorType::spec_try_from(raw[9]) is Ok) {
            PngError::InvalidColorType
        } else if !spec_depth_ok(raw[9], raw[8]) {
            PngError::InvalidBitDepth
        } else if raw[10] != 0 {
            PngError::InvalidCompressionMethod
        } else if raw[11] != 0 {
            PngError::InvalidFilterMethod
        } else {
            PngError::InvalidInterlaceMethod
        }
    }

    /// A payload that decodes re-serializes to the same bytes, and the
    /// decoded header is well-formed.
    pub proof fn lemma_parse_round_trip(raw: Seq<u8>)
        requires
            Self::spec_parses(raw),
        ensures
            Self::spec_parse(raw).wf(),
            Self::spec_parse(raw).spec_bytes() == raw,
    {
        lemma_u32_be_round_trip(raw.subrange(0, 4));
        lemma_u32_be_round_trip(raw.subrange(4, 8));
        assert(Self::spec_parse(raw).spec_bytes() =~= raw);
    }

    /// Decodes the 13-byte header payload, validating every field.
    pub fn decode(raw: &Vec<u8>) -> (r: Result<ChunkImageHeader, PngError>)
        ensures
            r matches Ok(h) ==> h == Self::spec_parse(raw@) && h.wf() && h.spec_bytes() == raw@,
            r is Ok <==> Self::spec_parses(raw@),
            r matches Err(e) ==> e == Self::spec_err(raw@),
    {
        if raw.len() != 13 {
            return Err(PngError::InvalidHeaderLength);
        }
        let width = u32_from_be_bytes(raw[0], raw[1], raw[2], raw[3]);
        let height = u32_from_be_bytes(raw[4], raw[5], raw[6], raw[7]);
        let bit_depth = raw[8];
        let color_type_raw = raw[9];

        let color_type = match ColorType::try_from(color_type_raw) {
            Ok(c) => c,
            Err(e) => {
                return Err(e);
            },
        };

        let valid_bit_depth = match (color_type_raw, bit_depth) {
            (0, 1 | 2 | 4 | 8 | 16) => true,
            (2, 8 | 16) => true,
            (3, 1 | 2 | 4 | 8) => true,
            (4, 8 | 16) => true,
            (6, 8 | 16) => true,
            _ => false,
        };

        if !valid_bit_depth {
            return Err(PngError::InvalidBitDepth);
        }
        // At present, only 0 (deflate/inflate) is accepted.
        let compression_method = raw[10];
        if compression_method != 0 {
            return Err(PngError::InvalidCompressionMethod);
        }
        // At present, only 0 is accepted.
        let filter_method = raw[11];
        if filter_method != 0 {
            return Err(PngError::InvalidFilterMethod);
        }
        // 0 and 1 are accepted.
        let interlace_method = raw[12];
        if !(interlace_method == 0 || interlace_method == 1) {
            return Err(PngError::InvalidInterlaceMethod);
        }

        let h = ChunkImageHeader {
            width,
            height,
            bit_depth,
            color_type,
            compression_method,
            filter_method,
            interlace_method,
        };
        proof {
            assert(raw@.subrange(0, 4) =~= seq![raw@[0], raw@[1], raw@[2], raw@[3]]);
            assert(raw@.subrange(4, 8) =~= seq![raw@[4], raw@[5], raw@[6], raw@[7]]);
            Self::lemma_parse_round_trip(raw@);
        }
        Ok(h)
    }

    /// Serializes the header back to its 13 payload bytes.
    pub fn as_bytes(&self) -> (r: Vec<u8>)
        ensures
            r@ == self.spec_bytes(),
    {
        let mut r = u32_to_be_vec(self.width);
        let mut h = u32_to_be_vec(self.height);
        r.append(&mut h);
        r.push(self.bit_depth);
        r.push(self.color_type.into());
        r.push(self.compression_method);
        r.push(self.filter_method);
        r.push(self.interlace_method);
        proof {
            assert(r@ =~= self.spec_bytes());
        }
        r
    }

    /// The display form of the header: size, bit depth and color type.
    pub open spec fn spec_render(self) -> Seq<char> {
        "Width: "@ + spec_dec_chars(self.width as int) + ", Height: "@ + spec_dec_chars(
            self.height as int,
        ) + "\nBit depth: "@ + spec_dec_chars(self.bit_depth as int) + ", Color type: "@
            + self.color_type.spec_render()
    }

    /// Renders the header for display.
    pub fn render_as_text(&self) -> (r: String)
        ensures
            r@ == self.spec_render(),
    {
        let mut s = String::new();
        s.append("Width: ");
        let d = u32_to_dec_string(self.width);
        s.append(d.as_str());
        s.append(", Height: ");
        let d = u32_to_dec_string(self.height);
        s.append(d.as_str());
        s.append("\nBit depth: ");
        let d = u32_to_dec_string(self.bit_depth as u32);
        s.append(d.as_str());
        s.append(", Color type: ");
        let d = self.color_type.render_as_text();
        s.append(d.as_str());
        s
    }

    pub fn width(&self) -> (r: u32)
        ensures
            r == self.width,
    {
        self.width
    }

    pub fn height(&self) -> (r: u32)
        ensures
            r == self.height,
    {
        self.height
    }

    pub fn bit_depth(&self) -> (r: u8)
        ensures
            r == self.bit_depth,
    {
        self.bit_depth
    }

    pub fn color_type(&self) -> (r: ColorType)
        ensures
            r == self.color_type,
    {
        self.color_type
    }

    pub fn color_channels(&self) -> (r: u8)
        ensures
            r == self.color_type.spec_channels(),
    {
        self.color_type.channels()
    }

    pub fn compression_method(&self) -> (r: u8)
        ensures
            r == self.compression_method,
    {
        self.compression_method
    }

    pub fn filter_method(&self) -> (r: u8)
        ensures
            r == self.filter_method,
    {
        self.filter_method
    }

    pub fn interface_method(&self) -> (r: u8)
        ensures
            r == self.interlace_method,
    {
        self.interlace_method
    }
}

} // verus!
