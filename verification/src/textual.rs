//! Text chunk payloads: tEXt, and the zTXt / iTXt record shapes.
//!
//! Only tEXt is decoded. The compressed (zTXt) and international (iTXt)
//! payloads would need the format's deflate semantics to interpret, so
//! decoding them is not supported: on decode such chunks pass through
//! uninterpreted, still checksum-protected. Their record types can still
//! be serialized.

use vstd::prelude::*;
use vstd::utf8::{decode_utf8, valid_utf8};
use crate::error::PngError;
use vstd::string::StringExecFns;
use crate::strutil::{clone_bytes, copy_range, find_zero, first_zero, has_zero, string_from_utf8};

verus! {

/// The byte that separates the keyword from the text.
pub const NULL_SEPARATOR: u8 = 0;

/// Chunk: tEXt. A keyword of 1 or more bytes, a zero separator, and
/// optional text (absent when the separator is the last payload byte).
///
/// Both parts are kept as raw bytes; they are interpreted as UTF-8 only
/// when queried.
#[derive(Debug, Clone, PartialEq, Eq)]
pub struct ChunkTextual {
    pub keyword: Vec<u8>,
    pub text: Option<Vec<u8>>,
}

impl ChunkTextual {
    /// Well-formedness: the keyword is non-empty and holds no zero byte,
    /// so re-serializing and re-decoding finds the same separator.
    pub open spec fn wf(self) -> bool {
        &&& self.keyword@.len() >= 1
        &&& forall|k: int| 0 <= k < self.keyword@.len() ==> self.keyword@[k] != 0
    }

    /// The payload bytes: keyword, zero separator, then the text if
    /// there is one.
    pub open spec fn spec_bytes(self) -> Seq<u8> {
        match self.text {
            Some(t) => self.keyword@ + seq![0u8] + t@,
            None => self.keyword@ + seq![0u8],
        }
    }

    /// Whether a payload decodes: it must hold a zero separator, and the
    /// keyword before it must not be empty.
    pub open spec fn spec_parses(raw: Seq<u8>) -> bool {
        has_zero(raw) && first_zero(raw) >= 1
    }

    /// Decodes a tEXt payload: the bytes before the first zero are the
    /// keyword, those after it the text; the text is absent when the
    /// separator is the last byte.
    pub fn decode(raw: &Vec<u8>) -> (r: Result<ChunkTextual, PngError>)
        ensures
            r matches Ok(t) ==> {
                &&& t.wf()
                &&& t.spec_bytes() == raw@
                &&& t.keyword@ == raw@.subrange(0, first_zero(raw@))
                &&& (t.text matches Some(x) ==> x@ == raw@.subrange(
                    first_zero(raw@) + 1,
                    raw@.len() as int,
                ))
                &&& (t.text is None <==> first_zero(raw@) == raw@.len() - 1)
            },
            r is Ok <==> Self::spec_parses(raw@),
            r matches Err(e) ==> e == PngError::ChunkParseError,
    {
        let z = match find_zero(raw) {
            Some(z) => z,
            None => {
                return Err(PngError::ChunkParseError);
            },
        };
        // The keyword takes at least 1 byte.
        if z < 1 {
            return Err(PngError::ChunkParseError);
        }
        let n = raw.len();
        let keyword = copy_range(raw, 0, z);
        let text: Option<Vec<u8>> = if z + 1 < n {
            Some(copy_range(raw, z + 1, n))
        } else {
            None
        };
        let t = ChunkTextual { keyword, text };
        proof {
            assert(raw@[z as int] == 0);
            if z + 1 < raw@.len() {
                assert(t.spec_bytes() =~= raw@);
            } else {
                assert(t.spec_bytes() =~= raw@);
            }
        }
        Ok(t)
    }

    /// Serializes the record back to its payload bytes.
    pub fn as_bytes(&self) -> (r: Vec<u8>)
        ensures
            r@ == self.spec_bytes(),
    {
        let mut out = clone_bytes(&self.keyword);
        out.push(NULL_SEPARATOR);
        match &self.text {
            Some(t) => {
                let mut rest = clone_bytes(t);
                out.append(&mut rest);
            },
            None => {},
        }
        proof {
            assert(out@ =~= self.spec_bytes());
        }
        out
    }

    /// The display form of a byte field: decoded where the bytes are
    /// UTF-8.
    pub open spec fn spec_render_field(b: Seq<u8>) -> Seq<char> {
        if valid_utf8(b) {
            decode_utf8(b)
        } else {
            "[Content cannot be decoded]"@
        }
    }

    /// The display form of the record: its keyword and text.
    pub open spec fn spec_render(self) -> Seq<char> {
        "ChunkTextual {Keyword: "@ + Self::spec_render_field(self.keyword@) + ", Text: "@ + (
        match self.text {
            Some(t) => Self::spec_render_field(t@),
            None => "None"@,
        }) + "}"@
    }

    /// Renders the record for display.
    pub fn render_as_text(&self) -> (r: String)
        ensures
            r@ == self.spec_render(),
    {
        let mut s = String::new();
        s.append("ChunkTextual {Keyword: ");
        match string_from_utf8(clone_bytes(&self.keyword)) {
            Some(k) => {
                s.append(k.as_str());
            },
            None => {
                s.append("[Content cannot be decoded]");
            },
        }
        s.append(", Text: ");
        match &self.text {
            Some(t) => {
                match string_from_utf8(clone_bytes(t)) {
                    Some(x) => {
                        s.append(x.as_str());
                    },
                    None => {
                        s.append("[Content cannot be decoded]");
                    },
                }
            },
            None => {
                s.append("None");
            },
        }
        s.append("}");
        s
    }

    /// The keyword as text; fails when its bytes are not UTF-8.
    pub fn keyword(&self) -> (r: Result<String, PngError>)
        ensures
            r matches Ok(s) ==> valid_utf8(self.keyword@) && s@ == decode_utf8(self.keyword@),
            r is Ok <==> valid_utf8(self.keyword@),
            r matches Err(e) ==> e == PngError::EncodingError,
    {
        match string_from_utf8(clone_bytes(&self.keyword)) {
            Some(s) => Ok(s),
            None => Err(PngError::EncodingError),
        }
    }

    /// The text as a string, when the record has text and its bytes are
    /// UTF-8; fails only on bytes that are not UTF-8.
    pub fn text(&self) -> (r: Result<Option<String>, PngError>)
        ensures
            self.text is None ==> (r matches Ok(o) && o is None),
            r matches Ok(o) ==> (o matches Some(s) ==> (self.text matches Some(t) && valid_utf8(t@)
                && s@ == decode_utf8(t@))),
            r matches Err(e) ==> e == PngError::EncodingError && (self.text matches Some(t)
                && !valid_utf8(t@)),
    {
        match &self.text {
            Some(t) => match string_from_utf8(clone_bytes(t)) {
                Some(s) => Ok(Some(s)),
                None => Err(PngError::EncodingError),
            },
            None => Ok(None),
        }
    }
}

/// Chunk: zTXt. Decoding the compressed text is not supported; the
/// record shape can still be built and serialized.
#[derive(Debug, Clone, PartialEq, Eq)]
pub struct ChunkTextualCompressed {
    /// 1 - 79 bytes
    pub keyword: Vec<u8>,
    /// 0: deflate/inflate compression
    pub compression_method: u8,
    pub compressed_text: Vec<u8>,
}

impl ChunkTextualCompressed {
    /// The payload bytes: keyword, zero separator, compression method,
    /// then the compressed text.
    pub open spec fn spec_bytes(self) -> Seq<u8> {
        self.keyword@ + seq![0u8, self.compression_method] + self.compressed_text@
    }

    /// Serializes the record back to its payload bytes.
    pub fn as_bytes(&self) -> (r: Vec<u8>)
        ensures
            r@ == self.spec_bytes(),
    {
        let mut out = clone_bytes(&self.keyword);
        out.push(NULL_SEPARATOR);
        out.push(self.compression_method);
        let mut rest = clone_bytes(&self.compressed_text);
        out.append(&mut rest);
        proof {
            assert(out@ =~= self.spec_bytes());
        }
        out
    }
}

/// Chunk: iTXt. Decoding is not supported; the record shape can still be
/// built and serialized.
#[derive(Debug, Clone, PartialEq, Eq)]
pub struct ChunkTextualInternational {
    /// 1 - 79 bytes
    pub keyword: Vec<u8>,
    /// 0: uncompressed, 1: compressed
    pub compression_flag: u8,
    /// Ignored if the compression flag is 0
    pub compression_method: u8,
    pub language_tag: Vec<u8>,
    pub translated_keyword: Vec<u8>,
    pub text: Vec<u8>,
}

impl ChunkTextualInternational {
    /// The payload bytes: keyword, zero separator, the two compression
    /// bytes, the language tag, a zero separator, the translated
    /// keyword, a zero separator, then the text.
    pub open spec fn spec_bytes(self) -> Seq<u8> {
        self.keyword@ + seq![0u8, self.compression_flag, self.compression_method]
            + self.language_tag@ + seq![0u8] + self.translated_keyword@ + seq![0u8] + self.text@
    }

    /// Serializes the record back to its payload bytes.
    pub fn as_bytes(&self) -> (r: Vec<u8>)
        ensures
            r@ == self.spec_bytes(),
    {
        let mut out = clone_bytes(&self.keyword);
        out.push(NULL_SEPARATOR);
        out.push(self.compression_flag);
        out.push(self.compression_method);
        let mut part = clone_bytes(&self.language_tag);
        out.append(&mut part);
        out.push(NULL_SEPARATOR);
        let mut part = clone_bytes(&self.translated_keyword);
        out.append(&mut part);
        out.push(NULL_SEPARATOR);
        let mut part = clone_bytes(&self.text);
        out.append(&mut part);
        proof {
            assert(out@ =~= self.spec_bytes());
        }
        out
    }
}

} // verus!
