//! iCCP chunk payload: a profile name, a compression method byte, and
//! the compressed profile bytes.

use vstd::prelude::*;
use vstd::utf8::{decode_utf8, valid_utf8};
use crate::error::PngError;
use vstd::string::StringExecFns;
use crate::strutil::{clone_bytes, copy_range, find_zero, first_zero, has_zero, string_from_utf8};

verus! {

/// An embedded color profile: its name (1 to 79 bytes, no zero byte),
/// the compression method, and the profile bytes as stored.
#[derive(Debug, Clone, PartialEq, Eq)]
pub struct ChunkICCProfile {
    /// 1 - 79 bytes
    pub profile_name: Vec<u8>,
    pub compression_method: u8,
    pub compression_profile: Vec<u8>,
}

impl ChunkICCProfile {
    /// Well-formedness: the profile name is 1 to 79 bytes and holds no
    /// zero byte.
    pub open spec fn wf(self) -> bool {
        &&& 1 <= self.profile_name@.len() <= 79
        &&& forall|k: int| 0 <= k < self.profile_name@.len() ==> self.profile_name@[k] != 0
    }

    /// The payload bytes: name, zero separator, compression method, then
    /// the profile bytes.
    pub open spec fn spec_bytes(self) -> Seq<u8> {
        self.profile_name@ + seq![0u8, self.compression_method] + self.compression_profile@
    }

    /// Whether a payload decodes: it must hold a zero separator, neither
    /// at position 0 (the name may not be empty) nor past byte 79, and a
    /// compression method byte must follow the separator.
    pub open spec fn spec_parses(raw: Seq<u8>) -> bool {
        &&& has_zero(raw)
        &&& 1 <= first_zero(raw) <= 79
        &&& first_zero(raw) + 2 <= raw.len()
    }

    /// Decodes an iCCP payload: the bytes before the first zero are the
    /// profile name, the byte after it the compression method, and the
    /// rest the profile.
    pub fn decode(raw: &Vec<u8>) -> (r: Result<ChunkICCProfile, PngError>)
        ensures
            r matches Ok(p) ==> {
                &&& p.wf()
                &&& p.spec_bytes() == raw@
                &&& p.profile_name@ == raw@.subrange(0, first_zero(raw@))
                &&& p.compression_method == raw@[first_zero(raw@) + 1]
                &&& p.compression_profile@ == raw@.subrange(first_zero(raw@) + 2, raw@.len() as int)
            },
            r is Ok <==> Self::spec_parses(raw@),
            r matches Err(e) ==> e == PngError::ChunkParseError,
    {
        let z = match find_zero(raw) {
            Some(z) => z,
            None => {
                return Err(PngError::ChunkParseError);
            },
        };
        // An empty profile name is disallowed.
        if z < 1 {
            return Err(PngError::ChunkParseError);
        }
        // The name may take at most 79 bytes.
        if z > 79 {
            return Err(PngError::ChunkParseError);
        }
        // The compression method byte must be present.
        let n = raw.len();
        if n - z < 2 {
            return Err(PngError::ChunkParseError);
        }
        let profile_name = copy_range(raw, 0, z);
        let compression_method = raw[z + 1];
        let compression_profile = copy_range(raw, z + 2, n);
        let p = ChunkICCProfile { profile_name, compression_method, compression_profile };
        proof {
            assert(raw@[z as int] == 0);
            assert(p.spec_bytes() =~= raw@);
        }
        Ok(p)
    }

    /// Serializes the record back to its payload bytes.
    pub fn as_bytes(&self) -> (r: Vec<u8>)
        ensures
            r@ == self.spec_bytes(),
    {
        let mut out = clone_bytes(&self.profile_name);
        out.push(0);
        out.push(self.compression_method);
        let mut rest = clone_bytes(&self.compression_profile);
        out.append(&mut rest);
        proof {
            assert(out@ =~= self.spec_bytes());
        }
        out
    }

    /// The display form of the profile: its name, where the name bytes
    /// are UTF-8.
    pub open spec fn spec_render(self) -> Seq<char> {
        if valid_utf8(self.profile_name@) {
            "Profile Name: "@ + decode_utf8(self.profile_name@)
                + "\nCompression method: Deflate"@
        } else {
            "Profile Name: [Content cannot be decoded]\nCompression method: Deflate"@
        }
    }

    /// Renders the profile for display.
    pub fn render_as_text(&self) -> (r: String)
        ensures
            r@ == self.spec_render(),
    {
        let mut s = String::new();
        match string_from_utf8(clone_bytes(&self.profile_name)) {
            Some(name) => {
                s.append("Profile Name: ");
                s.append(name.as_str());
                s.append("\nCompression method: Deflate");
            },
            None => {
                s.append("Profile Name: [Content cannot be decoded]\nCompression method: Deflate");
            },
        }
        s
    }

    /// The profile name as text; fails when its bytes are not UTF-8.
    pub fn profile_name(&self) -> (r: Result<String, PngError>)
        ensures
            r matches Ok(s) ==> valid_utf8(self.profile_name@) && s@ == decode_utf8(
                self.profile_name@,
            ),
            r is Ok <==> valid_utf8(self.profile_name@),
            r matches Err(e) ==> e == PngError::EncodingError,
    {
        match string_from_utf8(clone_bytes(&self.profile_name)) {
            Some(s) => Ok(s),
            None => Err(PngError::EncodingError),
        }
    }
}

} // verus!
