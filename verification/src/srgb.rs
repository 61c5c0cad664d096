//! sRGB chunk payload: a single rendering-intent byte.

use vstd::prelude::*;
use crate::error::PngError;

verus! {

/// Rendering intent:
/// 0: Perceptual
/// 1: Relative colorimetric
/// 2: Saturation
/// 3: Absolute colorimetric
#[derive(Debug, Clone, Copy, PartialEq, Eq, Structural)]
pub struct ChunkSRGB(pub u8);

impl ChunkSRGB {
    /// The single payload byte.
    pub open spec fn spec_bytes(self) -> Seq<u8> {
        seq![self.0]
    }

    /// Whether a payload decodes: it must be exactly one byte.
    pub open spec fn spec_parses(raw: Seq<u8>) -> bool {
        raw.len() == 1
    }

    /// Decodes the fixed one-byte rendering-intent payload.
    pub fn decode(raw: &Vec<u8>) -> (r: Result<ChunkSRGB, PngError>)
        ensures
            r matches Ok(s) ==> s.0 == raw@[0] && s.spec_bytes() == raw@,
            r is Ok <==> Self::spec_parses(raw@),
            r matches Err(e) ==> e == PngError::ChunkParseError,
    {
        if raw.len() != 1 {
            return Err(PngError::ChunkParseError);
        }
        let s = ChunkSRGB(raw[0]);
        proof {
            assert(s.spec_bytes() =~= raw@);
        }
        Ok(s)
    }

    /// Serializes the rendering intent back to its payload byte.
    pub fn as_bytes(&self) -> (r: Vec<u8>)
        ensures
            r@ == self.spec_bytes(),
    {
        let mut r: Vec<u8> = Vec::new();
        r.push(self.0);
        proof {
            assert(r@ =~= self.spec_bytes());
        }
        r
    }

    /// The stored rendering-intent byte.
    pub fn intent(&self) -> (r: u8)
        ensures
            r == self.0,
    {
        self.0
    }

    /// The display name of the rendering intent.
    pub open spec fn spec_render(self) -> Seq<char> {
        if self.0 == 0 {
            "Perceptual"@
        } else if self.0 == 1 {
            "Relative colorimetric"@
        } else if self.0 == 2 {
            "Saturation"@
        } else if self.0 == 3 {
            "Absolute colorimetric"@
        } else {
            "Unknown"@
        }
    }

    /// Renders the display name of the rendering intent.
    pub fn render_as_text(&self) -> (r: String)
        ensures
            r@ == self.spec_render(),
    {
        match self.0 {
            0 => "Perceptual".to_owned(),
            1 => "Relative colorimetric".to_owned(),
            2 => "Saturation".to_owned(),
            3 => "Absolute colorimetric".to_owned(),
            _ => "Unknown".to_owned(),
        }
    }
}

} // verus!
