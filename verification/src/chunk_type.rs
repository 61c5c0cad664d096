//! The four-byte chunk type tag.
//!
//! Each of the four bytes must be an ASCII letter; the case of each letter
//! (bit 5 of the byte) encodes one structural flag.

use vstd::prelude::*;
use vstd::string::StringSliceAdditionalSpecFns;
use vstd::string::StrSliceExecFns;
use vstd::utf8::decode_utf8;
use crate::error::PngError;
use crate::strutil::{ascii_chars_of, ascii_to_string, lemma_ascii_decode};

verus! {

/// Ancillary bit (byte 0):
/// 0 (uppercase) = critical, 1 (lowercase) = ancillary.
///
/// Private bit (byte 1):
/// 0 (uppercase) = public, 1 (lowercase) = private.
///
/// Reserved bit (byte 2):
/// Must be 0 (uppercase) in files conforming to this version of PNG.
///
/// Safe-to-copy bit (byte 3):
/// 0 (uppercase) = unsafe to copy, 1 (lowercase) = safe to copy.
#[derive(Debug, PartialEq, Eq, Structural, Copy, Clone)]
pub struct ChunkType(pub u8, pub u8, pub u8, pub u8);

/// Whether a byte is an ASCII letter, the only bytes a tag may hold.
pub open spec fn spec_is_tag_byte(b: u8) -> bool {
    (65 <= b && b <= 90) || (97 <= b && b <= 122)
}

/// Whether a byte sequence is a well-formed four-letter tag.
pub open spec fn spec_valid_tag(s: Seq<u8>) -> bool {
    s.len() == 4 && (forall|i: int| 0 <= i < 4 ==> spec_is_tag_byte(#[trigger] s[i]))
}

/// The position of the first byte of `s` that is not an ASCII letter.
pub open spec fn spec_first_bad_byte(s: Seq<u8>) -> int
    recommends
        s.len() == 4,
{
    if !spec_is_tag_byte(s[0]) {
        0int
    } else if !spec_is_tag_byte(s[1]) {
        1int
    } else if !spec_is_tag_byte(s[2]) {
        2int
    } else {
        3int
    }
}

/// Bit 5 of a byte: for an ASCII letter, 0 when uppercase and 1 when
/// lowercase.
pub open spec fn spec_bit5(v: u8) -> u8 {
    (v >> 5) & 1
}

fn is_valid_word(w: u8) -> (r: bool)
    ensures
        r == spec_is_tag_byte(w),
{
    (65 <= w && w <= 90) || (97 <= w && w <= 122)
}

fn bit_5_of(val: u8) -> (r: u8)
    ensures
        r == spec_bit5(val),
{
    (val >> 5) & 1
}

impl View for ChunkType {
    type V = Seq<u8>;

    open spec fn view(&self) -> Seq<u8> {
        seq![self.0, self.1, self.2, self.3]
    }
}

impl ChunkType {
    /// Well-formedness: every constructed tag holds four ASCII letters.
    pub open spec fn wf(self) -> bool {
        spec_valid_tag(self@)
    }

    /// Parses a tag out of four raw bytes. Fails, naming the offending
    /// byte and its position, unless all four are ASCII letters.
    pub fn parse(value: [u8; 4]) -> (r: Result<ChunkType, PngError>)
        ensures
            r matches Ok(t) ==> t@ == value@ && t.wf(),
            r is Ok <==> spec_valid_tag(value@),
            r matches Err(e) ==> e == PngError::ChunkTypeParseError(
                value@[spec_first_bad_byte(value@)],
                spec_first_bad_byte(value@) as usize,
            ),
    {
        let mut i: usize = 0;
        while i < 4
            invariant
                i <= 4,
                forall|j: int| 0 <= j < i ==> spec_is_tag_byte(#[trigger] value@[j]),
            decreases 4 - i,
        {
            if !is_valid_word(value[i]) {
                return Err(PngError::ChunkTypeParseError(value[i], i));
            }
            i += 1;
        }
        Ok(ChunkType(value[0], value[1], value[2], value[3]))
    }

    /// Parses a tag out of a string: it must be exactly four bytes long
    /// and every byte must be an ASCII letter.
    pub fn parse_str(s: &str) -> (r: Result<ChunkType, PngError>)
        ensures
            r matches Ok(t) ==> t@ == s.spec_bytes() && t.wf(),
            r is Ok <==> spec_valid_tag(s.spec_bytes()),
            r matches Err(e) ==> e == (if s.spec_bytes().len() != 4 {
                PngError::ChunkParseError
            } else {
                PngError::ChunkTypeParseError(
                    s.spec_bytes()[spec_first_bad_byte(s.spec_bytes())],
                    spec_first_bad_byte(s.spec_bytes()) as usize,
                )
            }),
    {
        let bytes = s.as_bytes_vec();
        if bytes.len() != 4 {
            return Err(PngError::ChunkParseError);
        }
        let arr = [bytes[0], bytes[1], bytes[2], bytes[3]];
        proof {
            assert(arr@ =~= s.spec_bytes());
        }
        Self::parse(arr)
    }

    /// The four tag bytes.
    pub fn bytes(&self) -> (r: [u8; 4])
        ensures
            r@ == self@,
    {
        let r = [self.0, self.1, self.2, self.3];
        proof {
            assert(r@ =~= self@);
        }
        r
    }

    /// Whether the tag conforms to the current revision of the format:
    /// the reserved bit (case of byte 2) must be 0.
    pub fn is_valid(&self) -> (r: bool)
        ensures
            r == (spec_bit5(self@[2]) == 0),
    {
        bit_5_of(self.2) == 0
    }

    /// Whether the chunk is critical (case of byte 0).
    pub fn is_critical(&self) -> (r: bool)
        ensures
            r == (spec_bit5(self@[0]) == 0),
    {
        bit_5_of(self.0) == 0
    }

    /// Whether the chunk is public (case of byte 1).
    pub fn is_public(&self) -> (r: bool)
        ensures
            r == (spec_bit5(self@[1]) == 0),
    {
        bit_5_of(self.1) == 0
    }

    /// Whether the reserved bit (case of byte 2) is valid.
    pub fn is_reserved_bit_valid(&self) -> (r: bool)
        ensures
            r == (spec_bit5(self@[2]) == 0),
    {
        bit_5_of(self.2) == 0
    }

    /// Whether the chunk is safe to copy (case of byte 3).
    pub fn is_safe_to_copy(&self) -> (r: bool)
        ensures
            r == (spec_bit5(self@[3]) == 1),
    {
        bit_5_of(self.3) == 1
    }

    /// The tag as a four-character string.
    pub fn render_as_text(&self) -> (r: String)
        requires
            self.wf(),
        ensures
            r@ == ascii_chars_of(self@),
            r@ == decode_utf8(self@),
    {
        let mut v: Vec<u8> = Vec::new();
        v.push(self.0);
        v.push(self.1);
        v.push(self.2);
        v.push(self.3);
        proof {
            assert(v@ =~= self@);
            lemma_ascii_decode(v@);
        }
        ascii_to_string(v)
    }
}

} // verus!
