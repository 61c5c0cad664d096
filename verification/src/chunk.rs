//! The chunk record: length, type tag, typed payload, checksum.
//!
//! A chunk's wire form is `length (4 bytes) ‖ tag (4 bytes) ‖ payload
//! (length bytes) ‖ crc (4 bytes)`, every integer big-endian, with the
//! checksum computed over tag and payload. Decoding validates the
//! checksum and interprets the payload under the tag; every mutation
//! recomputes length and checksum, so a record is never observably
//! inconsistent.

use vstd::prelude::*;
use vstd::utf8::{decode_utf8, valid_utf8};
use crate::chromaticities::ChunkChromaticities;
use crate::chunk_type::{spec_first_bad_byte, spec_valid_tag, ChunkType};
use crate::crc32::{crc32_checksum, crc32_of};
use crate::endian::{lemma_u32_be_round_trip, spec_u32_from_be, spec_u32_to_be, u32_from_be_bytes,
    u32_to_be_vec};
use crate::error::PngError;
use crate::gamma::ChunkGamma;
use crate::icc_profile::ChunkICCProfile;
use crate::image_header::ChunkImageHeader;
use crate::palette::ChunkPalette;
use crate::srgb::ChunkSRGB;
use crate::strutil::{ascii_chars_of, clone_bytes, copy_range, first_zero, spec_dec_chars,
    string_from_utf8, u32_to_dec_string, usize_to_dec_string};
use vstd::string::StringExecFns;
use crate::palette::spec_render_palettes;
use crate::textual::{ChunkTextual, ChunkTextualCompressed, ChunkTextualInternational};
use crate::transparency::ChunkTransparency;

verus! {

pub const CHUNK_LENGTH_BYTE_LEN: usize = 4;

pub const CHUNK_TYPE_BYTE_LEN: usize = 4;

pub const CHUNK_CRC_BYTE_LEN: usize = 4;

/// The typed payload of a chunk, selected by the tag's textual form;
/// tags outside the known set fall through to `Other`, a checked but
/// uninterpreted byte span.
#[derive(Debug, Clone, PartialEq, Eq)]
pub enum ChunkData {
    ImageHeader(ChunkImageHeader),
    Palette(ChunkPalette),
    ImageData(Vec<u8>),
    ImageEnd,
    Transparency(ChunkTransparency),
    Gamma(ChunkGamma),
    Chromaticities(ChunkChromaticities),
    SRgb(ChunkSRGB),
    ICCProfile(ChunkICCProfile),
    Textual(ChunkTextual),
    TextualCompressed(ChunkTextualCompressed),
    TextualInternational(ChunkTextualInternational),
    Other(Vec<u8>),
}

pub open spec fn spec_tag_ihdr() -> Seq<u8> {
    seq![73u8, 72u8, 68u8, 82u8]  // "IHDR"

}

pub open spec fn spec_tag_plte() -> Seq<u8> {
    seq![80u8, 76u8, 84u8, 69u8]  // "PLTE"

}

pub open spec fn spec_tag_idat() -> Seq<u8> {
    seq![73u8, 68u8, 65u8, 84u8]  // "IDAT"

}

pub open spec fn spec_tag_iend() -> Seq<u8> {
    seq![73u8, 69u8, 78u8, 68u8]  // "IEND"

}

pub open spec fn spec_tag_trns() -> Seq<u8> {
    seq![116u8, 82u8, 78u8, 83u8]  // "tRNS"

}

pub open spec fn spec_tag_gama() -> Seq<u8> {
    seq![103u8, 65u8, 77u8, 65u8]  // "gAMA"

}

pub open spec fn spec_tag_chrm() -> Seq<u8> {
    seq![99u8, 72u8, 82u8, 77u8]  // "cHRM"

}

pub open spec fn spec_tag_srgb() -> Seq<u8> {
    seq![115u8, 82u8, 71u8, 66u8]  // "sRGB"

}

pub open spec fn spec_tag_iccp() -> Seq<u8> {
    seq![105u8, 67u8, 67u8, 80u8]  // "iCCP"

}

pub open spec fn spec_tag_text() -> Seq<u8> {
    seq![116u8, 69u8, 88u8, 116u8]  // "tEXt"

}

/// Whether a payload decodes under a tag: each recognized tag applies
/// its codec's own rule; an end marker must have an empty payload; image
/// data, transparency and unrecognized tags accept any bytes.
pub open spec fn spec_payload_parses(tag: Seq<u8>, raw: Seq<u8>) -> bool {
    if tag == spec_tag_ihdr() {
        ChunkImageHeader::spec_parses(raw)
    } else if tag == spec_tag_plte() {
        ChunkPalette::spec_parses(raw)
    } else if tag == spec_tag_iend() {
        raw.len() == 0
    } else if tag == spec_tag_gama() {
        ChunkGamma::spec_parses(raw)
    } else if tag == spec_tag_chrm() {
        ChunkChromaticities::spec_parses(raw)
    } else if tag == spec_tag_srgb() {
        ChunkSRGB::spec_parses(raw)
    } else if tag == spec_tag_iccp() {
        ChunkICCProfile::spec_parses(raw)
    } else if tag == spec_tag_text() {
        ChunkTextual::spec_parses(raw)
    } else {
        true
    }
}

/// The error a payload that does not decode is rejected with.
pub open spec fn spec_payload_err(tag: Seq<u8>, raw: Seq<u8>) -> PngError {
    if tag == spec_tag_ihdr() {
        ChunkImageHeader::spec_err(raw)
    } else {
        PngError::ChunkParseError
    }
}

/// Exactly which payload value a byte span decodes to under a tag.
pub open spec fn spec_data_matches(tag: Seq<u8>, raw: Seq<u8>, d: ChunkData) -> bool {
    if tag == spec_tag_ihdr() {
        d matches ChunkData::ImageHeader(h) && h == ChunkImageHeader::spec_parse(raw)
    } else if tag == spec_tag_plte() {
        d matches ChunkData::Palette(p) && p@ == ChunkPalette::spec_parse(raw)
    } else if tag == spec_tag_idat() {
        d matches ChunkData::ImageData(v) && v@ == raw
    } else if tag == spec_tag_iend() {
        d is ImageEnd
    } else if tag == spec_tag_trns() {
        d matches ChunkData::Transparency(t) && t@ == raw
    } else if tag == spec_tag_gama() {
        d matches ChunkData::Gamma(g) && g.0 == spec_u32_from_be(raw)
    } else if tag == spec_tag_chrm() {
        d matches ChunkData::Chromaticities(c) && c == ChunkChromaticities::spec_parse(raw)
    } else if tag == spec_tag_srgb() {
        d matches ChunkData::SRgb(s) && s.0 == raw[0]
    } else if tag == spec_tag_iccp() {
        d matches ChunkData::ICCProfile(p) && p.profile_name@ == raw.subrange(0, first_zero(raw))
            && p.compression_method == raw[first_zero(raw) + 1] && p.compression_profile@
            == raw.subrange(first_zero(raw) + 2, raw.len() as int)
    } else if tag == spec_tag_text() {
        d matches ChunkData::Textual(t) && t.keyword@ == raw.subrange(0, first_zero(raw)) && (
        t.text is None <==> first_zero(raw) == raw.len() - 1) && (t.text matches Some(x) ==> x@
            == raw.subrange(first_zero(raw) + 1, raw.len() as int))
    } else {
        d matches ChunkData::Other(v) && v@ == raw
    }
}

impl ChunkData {
    /// The payload bytes this value serializes to.
    pub open spec fn spec_bytes(self) -> Seq<u8> {
        match self {
            ChunkData::ImageHeader(h) => h.spec_bytes(),
            ChunkData::Palette(p) => p.spec_bytes(),
            ChunkData::ImageData(d) => d@,
            ChunkData::ImageEnd => Seq::empty(),
            ChunkData::Transparency(t) => t.spec_bytes(),
            ChunkData::Gamma(g) => g.spec_bytes(),
            ChunkData::Chromaticities(c) => c.spec_bytes(),
            ChunkData::SRgb(s) => s.spec_bytes(),
            ChunkData::ICCProfile(p) => p.spec_bytes(),
            ChunkData::Textual(t) => t.spec_bytes(),
            ChunkData::TextualCompressed(tc) => tc.spec_bytes(),
            ChunkData::TextualInternational(ti) => ti.spec_bytes(),
            ChunkData::Other(d) => d@,
        }
    }

    /// The display form of the payload, one shape per kind.
    pub open spec fn spec_render(self) -> Seq<char> {
        match self {
            ChunkData::ImageHeader(h) => h.spec_render(),
            ChunkData::Palette(p) => spec_render_palettes(p@),
            ChunkData::ImageData(d) => "[u8](len: "@ + spec_dec_chars(d@.len() as int) + ")"@,
            ChunkData::ImageEnd => "[Empty]"@,
            ChunkData::Transparency(t) => "[u8](len: "@ + spec_dec_chars(t@.len() as int) + ")"@,
            ChunkData::Gamma(g) => "Gamma: "@ + g.spec_render(),
            ChunkData::Chromaticities(c) => "Chromaticties: "@ + c.spec_render(),
            ChunkData::SRgb(sr) => "sRGB rendering intent: "@ + sr.spec_render(),
            ChunkData::ICCProfile(p) => "ICC profile: "@ + p.spec_render(),
            ChunkData::Textual(t) => "Textual: "@ + t.spec_render(),
            ChunkData::TextualCompressed(_) => "Textual compressed: [not supported]"@,
            ChunkData::TextualInternational(_) => "Textual international: [not supported]"@,
            ChunkData::Other(d) => (if valid_utf8(d@) {
                "\""@ + decode_utf8(d@) + "\""@
            } else {
                "[Content cannot be decoded]"@
            }),
        }
    }

    /// Renders the payload for display.
    pub fn render_as_text(&self) -> (r: String)
        ensures
            r@ == self.spec_render(),
    {
        match self {
            ChunkData::ImageHeader(h) => h.render_as_text(),
            ChunkData::Palette(p) => p.render_as_text(),
            ChunkData::ImageData(d) => {
                let mut s = String::new();
                s.append("[u8](len: ");
                let n = usize_to_dec_string(d.len());
                s.append(n.as_str());
                s.append(")");
                s
            },
            ChunkData::ImageEnd => "[Empty]".to_owned(),
            ChunkData::Transparency(t) => {
                let mut s = String::new();
                s.append("[u8](len: ");
                let n = usize_to_dec_string(t.0.len());
                s.append(n.as_str());
                s.append(")");
                s
            },
            ChunkData::Gamma(g) => {
                let mut s = String::new();
                s.append("Gamma: ");
                let t = g.render_as_text();
                s.append(t.as_str());
                s
            },
            ChunkData::Chromaticities(c) => {
                let mut s = String::new();
                s.append("Chromaticties: ");
                let t = c.render_as_text();
                s.append(t.as_str());
                s
            },
            ChunkData::SRgb(sr) => {
                let mut s = String::new();
                s.append("sRGB rendering intent: ");
                let t = sr.render_as_text();
                s.append(t.as_str());
                s
            },
            ChunkData::ICCProfile(p) => {
                let mut s = String::new();
                s.append("ICC profile: ");
                let t = p.render_as_text();
                s.append(t.as_str());
                s
            },
            ChunkData::Textual(t) => {
                let mut s = String::new();
                s.append("Textual: ");
                let x = t.render_as_text();
                s.append(x.as_str());
                s
            },
            ChunkData::TextualCompressed(_) => "Textual compressed: [not supported]".to_owned(),
            ChunkData::TextualInternational(_) => "Textual international: [not supported]".to_owned(),
            ChunkData::Other(d) => {
                let mut s = String::new();
                match string_from_utf8(clone_bytes(d)) {
                    Some(x) => {
                        s.append("\"");
                        s.append(x.as_str());
                        s.append("\"");
                    },
                    None => {
                        s.append("[Content cannot be decoded]");
                    },
                }
                s
            },
        }
    }

    /// Serializes the payload back to its bytes.
    pub fn as_bytes(&self) -> (r: Vec<u8>)
        ensures
            r@ == self.spec_bytes(),
    {
        match self {
            ChunkData::ImageHeader(h) => h.as_bytes(),
            ChunkData::Palette(p) => p.as_bytes(),
            ChunkData::ImageData(d) => clone_bytes(d),
            ChunkData::ImageEnd => Vec::new(),
            ChunkData::Transparency(t) => t.as_bytes(),
            ChunkData::Gamma(g) => g.as_bytes(),
            ChunkData::Chromaticities(c) => c.as_bytes(),
            ChunkData::SRgb(s) => s.as_bytes(),
            ChunkData::ICCProfile(p) => p.as_bytes(),
            ChunkData::Textual(t) => t.as_bytes(),
            ChunkData::TextualCompressed(tc) => tc.as_bytes(),
            ChunkData::TextualInternational(ti) => ti.as_bytes(),
            ChunkData::Other(d) => clone_bytes(d),
        }
    }
}

/// Whether the tag holds exactly the four given bytes.
fn tag_is(t: &ChunkType, b0: u8, b1: u8, b2: u8, b3: u8) -> (r: bool)
    ensures
        r == (t@ == seq![b0, b1, b2, b3]),
{
    let b = t.bytes();
    let eq = b[0] == b0 && b[1] == b1 && b[2] == b2 && b[3] == b3;
    proof {
        if eq {
            assert(t@ =~= seq![b0, b1, b2, b3]);
        } else {
            if t@ == seq![b0, b1, b2, b3] {
                assert(b@[0] == b0 && b@[1] == b1 && b@[2] == b2 && b@[3] == b3);
            }
        }
    }
    eq
}

/// Interprets a raw payload under a tag, selecting the codec by the
/// tag's textual form; unrecognized tags fall through to `Other`.
pub fn map_chunk_data(chunk_type: &ChunkType, data: Vec<u8>) -> (r: Result<ChunkData, PngError>)
    ensures
        r matches Ok(d) ==> spec_data_matches(chunk_type@, data@, d) && d.spec_bytes() == data@,
        r is Ok <==> spec_payload_parses(chunk_type@, data@),
        r matches Err(e) ==> e == spec_payload_err(chunk_type@, data@),
{
    if tag_is(chunk_type, 73, 72, 68, 82) {
        // IHDR
        match ChunkImageHeader::decode(&data) {
            Ok(h) => Ok(ChunkData::ImageHeader(h)),
            Err(e) => Err(e),
        }
    } else if tag_is(chunk_type, 80, 76, 84, 69) {
        // PLTE
        match ChunkPalette::decode(&data) {
            Ok(p) => Ok(ChunkData::Palette(p)),
            Err(e) => Err(e),
        }
    } else if tag_is(chunk_type, 73, 68, 65, 84) {
        // IDAT
        Ok(ChunkData::ImageData(data))
    } else if tag_is(chunk_type, 73, 69, 78, 68) {
        // IEND: the end marker carries no payload.
        if data.len() == 0 {
            Ok(ChunkData::ImageEnd)
        } else {
            Err(PngError::ChunkParseError)
        }
    } else if tag_is(chunk_type, 116, 82, 78, 83) {
        // tRNS
        match ChunkTransparency::decode(&data) {
            Ok(t) => Ok(ChunkData::Transparency(t)),
            Err(e) => Err(e),
        }
    } else if tag_is(chunk_type, 103, 65, 77, 65) {
        // gAMA
        match ChunkGamma::decode(&data) {
            Ok(g) => Ok(ChunkData::Gamma(g)),
            Err(e) => Err(e),
        }
    } else if tag_is(chunk_type, 99, 72, 82, 77) {
        // cHRM
        match ChunkChromaticities::decode(&data) {
            Ok(c) => Ok(ChunkData::Chromaticities(c)),
            Err(e) => Err(e),
        }
    } else if tag_is(chunk_type, 115, 82, 71, 66) {
        // sRGB
        match ChunkSRGB::decode(&data) {
            Ok(s) => Ok(ChunkData::SRgb(s)),
            Err(e) => Err(e),
        }
    } else if tag_is(chunk_type, 105, 67, 67, 80) {
        // iCCP
        match ChunkICCProfile::decode(&data) {
            Ok(p) => Ok(ChunkData::ICCProfile(p)),
            Err(e) => Err(e),
        }
    } else if tag_is(chunk_type, 116, 69, 88, 116) {
        // tEXt
        match ChunkTextual::decode(&data) {
            Ok(t) => Ok(ChunkData::Textual(t)),
            Err(e) => Err(e),
        }
    } else {
        Ok(ChunkData::Other(data))
    }
}

/// One record of the container format.
#[derive(Debug, Clone, PartialEq, Eq)]
pub struct Chunk {
    pub length: u32,
    pub chunk_type: ChunkType,
    pub data: ChunkData,
    pub crc: u32,
}

/// The bytes the checksum is computed over: tag then payload.
fn crc_input(chunk_type: &ChunkType, data: &Vec<u8>) -> (r: Vec<u8>)
    ensures
        r@ == chunk_type@ + data@,
{
    let b = chunk_type.bytes();
    let mut r: Vec<u8> = Vec::new();
    r.push(b[0]);
    r.push(b[1]);
    r.push(b[2]);
    r.push(b[3]);
    let mut rest = clone_bytes(data);
    r.append(&mut rest);
    proof {
        assert(r@ =~= chunk_type@ + data@);
    }
    r
}

impl Chunk {
    /// The record's invariant: the tag is well-formed, the length is the
    /// payload byte count, and the checksum is the CRC of tag and
    /// payload.
    pub open spec fn wf(self) -> bool {
        &&& self.chunk_type.wf()
        &&& self.length == self.data.spec_bytes().len()
        &&& self.crc == crc32_of(self.chunk_type@ + self.data.spec_bytes())
    }

    /// The record's wire form: length, tag, payload, checksum.
    pub open spec fn spec_wire(self) -> Seq<u8> {
        spec_u32_to_be(self.length) + self.chunk_type@ + self.data.spec_bytes() + spec_u32_to_be(
            self.crc,
        )
    }

    /// Whether a byte span is one well-formed chunk: long enough for the
    /// three fixed fields, a four-letter tag, a length field that counts
    /// exactly the payload bytes present, a checksum that matches, and a
    /// payload its codec accepts.
    pub open spec fn spec_chunk_parses(b: Seq<u8>) -> bool {
        &&& b.len() >= 12
        &&& spec_valid_tag(b.subrange(4, 8))
        &&& spec_u32_from_be(b.subrange(0, 4)) == b.len() - 12
        &&& spec_u32_from_be(b.subrange(b.len() - 4, b.len() as int)) == crc32_of(
            b.subrange(4, 8) + b.subrange(8, b.len() - 4),
        )
        &&& spec_payload_parses(b.subrange(4, 8), b.subrange(8, b.len() - 4))
    }

    /// The error a malformed span is rejected with, checked in wire
    /// order: overall size, tag, length field, checksum, payload.
    pub open spec fn spec_chunk_err(b: Seq<u8>) -> PngError {
        if b.len() < 12 {
            PngError::ChunkParseError
        } else if !spec_valid_tag(b.subrange(4, 8)) {
            PngError::ChunkTypeParseError(
                b.subrange(4, 8)[spec_first_bad_byte(b.subrange(4, 8))],
                spec_first_bad_byte(b.subrange(4, 8)) as usize,
            )
        } else if spec_u32_from_be(b.subrange(0, 4)) != b.len() - 12 {
            PngError::ChunkParseError
        } else if spec_u32_from_be(b.subrange(b.len() - 4, b.len() as int)) != crc32_of(
            b.subrange(4, 8) + b.subrange(8, b.len() - 4),
        ) {
            PngError::ChunkCrcMismatch
        } else {
            spec_payload_err(b.subrange(4, 8), b.subrange(8, b.len() - 4))
        }
    }

    /// Decodes one chunk out of `v[start..end]`.
    ///
    /// On success the returned record is internally consistent and its
    /// re-serialization is exactly the consumed span; a mismatched
    /// checksum is rejected with `ChunkCrcMismatch` and produces no
    /// record.
    pub fn decode_range(v: &Vec<u8>, start: usize, end: usize) -> (r: Result<Chunk, PngError>)
        requires
            start <= end <= v@.len(),
        ensures
            r matches Ok(c) ==> {
                &&& c.wf()
                &&& c.spec_wire() == v@.subrange(start as int, end as int)
                &&& spec_data_matches(
                    c.chunk_type@,
                    v@.subrange(start as int + 8, end as int - 4),
                    c.data,
                )
            },
            r is Ok <==> Self::spec_chunk_parses(v@.subrange(start as int, end as int)),
            r matches Err(e) ==> e == Self::spec_chunk_err(v@.subrange(start as int, end as int)),
    {
        let ghost b = v@.subrange(start as int, end as int);
        let n = end - start;
        if n < 12 {
            return Err(PngError::ChunkParseError);
        }
        let length = u32_from_be_bytes(v[start], v[start + 1], v[start + 2], v[start + 3]);
        proof {
            assert(b.subrange(0, 4) =~= seq![
                v@[start as int],
                v@[start as int + 1],
                v@[start as int + 2],
                v@[start as int + 3],
            ]);
        }
        let tag_arr = [v[start + 4], v[start + 5], v[start + 6], v[start + 7]];
        proof {
            assert(tag_arr@ =~= b.subrange(4, 8));
        }
        let chunk_type = match ChunkType::parse(tag_arr) {
            Ok(t) => t,
            Err(e) => {
                return Err(e);
            },
        };
        // The length field must count exactly the payload bytes present.
        if !(length as usize == n - 12) {
            return Err(PngError::ChunkParseError);
        }
        let data = copy_range(v, start + 8, end - 4);
        proof {
            assert(data@ =~= b.subrange(8, b.len() - 4));
        }
        let computed = crc32_checksum(&crc_input(&chunk_type, &data));
        let stored = u32_from_be_bytes(v[end - 4], v[end - 3], v[end - 2], v[end - 1]);
        proof {
            assert(b.subrange(b.len() - 4, b.len() as int) =~= seq![
                v@[end as int - 4],
                v@[end as int - 3],
                v@[end as int - 2],
                v@[end as int - 1],
            ]);
        }
        if stored != computed {
            return Err(PngError::ChunkCrcMismatch);
        }
        let ghost raw = data@;
        let chunk_data = match map_chunk_data(&chunk_type, data) {
            Ok(d) => d,
            Err(e) => {
                return Err(e);
            },
        };
        let c = Chunk { length, chunk_type, data: chunk_data, crc: stored };
        proof {
            lemma_u32_be_round_trip(b.subrange(0, 4));
            lemma_u32_be_round_trip(b.subrange(b.len() - 4, b.len() as int));
            assert(c.spec_wire() =~= b);
        }
        Ok(c)
    }

    /// Decodes one chunk out of a whole byte span.
    pub fn decode(v: &Vec<u8>) -> (r: Result<Chunk, PngError>)
        ensures
            r matches Ok(c) ==> c.wf() && c.spec_wire() == v@,
            r is Ok <==> Self::spec_chunk_parses(v@),
            r matches Err(e) ==> e == Self::spec_chunk_err(v@),
    {
        proof {
            assert(v@.subrange(0, v@.len() as int) =~= v@);
        }
        Self::decode_range(v, 0, v.len())
    }

    /// Builds a record from a tag and raw payload bytes: length and
    /// checksum are computed fresh, and the payload is interpreted under
    /// the tag; bytes the tag's codec rejects are kept uninterpreted, so
    /// construction never fails.
    pub fn new(chunk_type: ChunkType, data: Vec<u8>) -> (r: Chunk)
        requires
            chunk_type.wf(),
            data@.len() <= u32::MAX,
        ensures
            r.wf(),
            r.chunk_type == chunk_type,
            r.data.spec_bytes() == data@,
            r.length == data@.len(),
            r.crc == crc32_of(chunk_type@ + data@),
            spec_payload_parses(chunk_type@, data@) ==> spec_data_matches(
                chunk_type@,
                data@,
                r.data,
            ),
            !spec_payload_parses(chunk_type@, data@) ==> (r.data matches ChunkData::Other(v) && v@
                == data@),
    {
        let length = data.len() as u32;
        let crc = crc32_checksum(&crc_input(&chunk_type, &data));
        let chunk_data = match map_chunk_data(&chunk_type, clone_bytes(&data)) {
            Ok(d) => d,
            Err(_) => ChunkData::Other(data),
        };
        Chunk { length, chunk_type, data: chunk_data, crc }
    }

    /// The payload byte count.
    pub fn length(&self) -> (r: u32)
        ensures
            r == self.length,
    {
        self.length
    }

    /// The type tag.
    pub fn chunk_type(&self) -> (r: &ChunkType)
        ensures
            r == self.chunk_type,
    {
        &self.chunk_type
    }

    /// The typed payload.
    pub fn chunk_data(&self) -> (r: &ChunkData)
        ensures
            r == self.data,
    {
        &self.data
    }

    /// The raw payload bytes.
    pub fn data(&self) -> (r: Vec<u8>)
        ensures
            r@ == self.data.spec_bytes(),
    {
        self.data.as_bytes()
    }

    /// The stored checksum.
    pub fn crc(&self) -> (r: u32)
        ensures
            r == self.crc,
    {
        self.crc
    }

    /// Replaces the payload: the bytes are reinterpreted under the
    /// unchanged tag, and length and checksum are recomputed, so the
    /// record never holds a stale checksum.
    pub fn set_data(&mut self, data: &Vec<u8>)
        requires
            old(self).chunk_type.wf(),
            data@.len() <= u32::MAX,
        ensures
            final(self).chunk_type == old(self).chunk_type,
            final(self).wf(),
            final(self).data.spec_bytes() == data@,
            final(self).length == data@.len(),
            final(self).crc == crc32_of(old(self).chunk_type@ + data@),
            spec_payload_parses(old(self).chunk_type@, data@) ==> spec_data_matches(
                old(self).chunk_type@,
                data@,
                final(self).data,
            ),
            !spec_payload_parses(old(self).chunk_type@, data@) ==> (final(self).data matches
                ChunkData::Other(v) && v@ == data@),
    {
        let new_len = data.len() as u32;
        let new_crc = crc32_checksum(&crc_input(&self.chunk_type, data));
        let new_data = match map_chunk_data(&self.chunk_type, clone_bytes(data)) {
            Ok(d) => d,
            Err(_) => ChunkData::Other(clone_bytes(data)),
        };
        self.length = new_len;
        self.data = new_data;
        self.crc = new_crc;
    }

    /// The payload bytes as text; fails when they are not UTF-8.
    pub fn data_as_string(&self) -> (r: Result<String, PngError>)
        ensures
            r matches Ok(s) ==> valid_utf8(self.data.spec_bytes()) && s@ == decode_utf8(
                self.data.spec_bytes(),
            ),
            r is Ok <==> valid_utf8(self.data.spec_bytes()),
            r matches Err(e) ==> e == PngError::EncodingError,
    {
        match string_from_utf8(self.data.as_bytes()) {
            Some(s) => Ok(s),
            None => Err(PngError::EncodingError),
        }
    }

    /// The display form of the record: tag, length, payload summary and
    /// checksum.
    pub open spec fn spec_render(self) -> Seq<char> {
        "Chunk ["@ + ascii_chars_of(self.chunk_type@) + "]\nLength: "@ + spec_dec_chars(
            self.length as int,
        ) + "\nData: "@ + self.data.spec_render() + "\nCrc: "@ + spec_dec_chars(self.crc as int)
            + "\n"@
    }

    /// Renders the record for display.
    pub fn render_as_text(&self) -> (r: String)
        requires
            self.chunk_type.wf(),
        ensures
            r@ == self.spec_render(),
    {
        let mut s = String::new();
        s.append("Chunk [");
        let t = self.chunk_type.render_as_text();
        s.append(t.as_str());
        s.append("]\nLength: ");
        let t = u32_to_dec_string(self.length);
        s.append(t.as_str());
        s.append("\nData: ");
        let t = self.data.render_as_text();
        s.append(t.as_str());
        s.append("\nCrc: ");
        let t = u32_to_dec_string(self.crc);
        s.append(t.as_str());
        s.append("\n");
        s
    }

    /// Serializes the record to its wire form: length, tag, payload,
    /// checksum.
    pub fn as_bytes(&self) -> (r: Vec<u8>)
        ensures
            r@ == self.spec_wire(),
    {
        let mut out = u32_to_be_vec(self.length);
        let tag = self.chunk_type.bytes();
        out.push(tag[0]);
        out.push(tag[1]);
        out.push(tag[2]);
        out.push(tag[3]);
        let mut payload = self.data.as_bytes();
        out.append(&mut payload);
        let mut crc = u32_to_be_vec(self.crc);
        out.append(&mut crc);
        proof {
            assert(out@ =~= self.spec_wire());
        }
        out
    }
}

} // verus!
