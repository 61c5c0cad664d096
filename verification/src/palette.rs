//! PLTE chunk payload: an ordered list of RGB triples.

use vstd::prelude::*;
use vstd::arithmetic::div_mod::lemma_fundamental_div_mod;
use vstd::string::StringExecFns;
use crate::error::PngError;
use crate::color::spec_triple_chars;
use crate::color::push_triple;

verus! {

/// Palette(Red, Green, Blue)
#[derive(Debug, Clone, Copy, PartialEq, Eq, Structural)]
pub struct Palette(pub u8, pub u8, pub u8);

impl Palette {
    pub fn red(&self) -> (r: u8)
        ensures
            r == self.0,
    {
        self.0
    }

    pub fn green(&self) -> (r: u8)
        ensures
            r == self.1,
    {
        self.1
    }

    pub fn blue(&self) -> (r: u8)
        ensures
            r == self.2,
    {
        self.2
    }
}

impl Palette {
    /// The display form of one entry.
    pub open spec fn spec_render(self) -> Seq<char> {
        "Palette: ("@ + spec_triple_chars(self.0, self.1, self.2) + ")"@
    }

    /// Renders one entry for display.
    pub fn render_as_text(&self) -> (r: String)
        ensures
            r@ == self.spec_render(),
    {
        let mut s = String::new();
        s.append("Palette: (");
        push_triple(&mut s, self.0, self.1, self.2);
        s.append(")");
        s
    }
}

/// The display form of a run of entries, one per line.
pub open spec fn spec_render_palettes(s: Seq<Palette>) -> Seq<char>
    decreases s.len(),
{
    if s.len() == 0 {
        Seq::empty()
    } else if s.len() == 1 {
        s[0].spec_render()
    } else {
        spec_render_palettes(s.drop_last()) + "\n"@ + s.last().spec_render()
    }
}

/// One of the three bytes of a palette entry.
pub open spec fn spec_entry_byte(p: Palette, k: int) -> u8 {
    if k == 0 {
        p.0
    } else if k == 1 {
        p.1
    } else {
        p.2
    }
}

/// The ordered palette entries of a PLTE chunk.
#[derive(Debug, Clone, PartialEq, Eq)]
pub struct ChunkPalette {
    pub palettes: Vec<Palette>,
}

impl View for ChunkPalette {
    type V = Seq<Palette>;

    open spec fn view(&self) -> Seq<Palette> {
        self.palettes@
    }
}

impl ChunkPalette {
    /// The payload bytes: each entry contributes its three bytes in
    /// order.
    pub open spec fn spec_bytes(&self) -> Seq<u8> {
        Seq::new(self.palettes@.len() * 3, |i: int| spec_entry_byte(self.palettes@[i / 3], i % 3))
    }

    /// Whether a payload decodes: the bytes must group into triples
    /// exactly.
    pub open spec fn spec_parses(raw: Seq<u8>) -> bool {
        raw.len() % 3 == 0
    }

    /// The entries a well-formed payload decodes to.
    pub open spec fn spec_parse(raw: Seq<u8>) -> Seq<Palette> {
        Seq::new(raw.len() / 3, |k: int| Palette(raw[3 * k], raw[3 * k + 1], raw[3 * k + 2]))
    }

    /// A payload that decodes re-serializes to the same bytes.
    pub proof fn lemma_parse_round_trip(raw: Seq<u8>, p: ChunkPalette)
        requires
            Self::spec_parses(raw),
            p@ == Self::spec_parse(raw),
        ensures
            p.spec_bytes() == raw,
    {
        assert(p.spec_bytes().len() == raw.len()) by {
            lemma_fundamental_div_mod(raw.len() as int, 3);
        }
        assert forall|i: int| 0 <= i < raw.len() implies p.spec_bytes()[i] == raw[i] by {
            lemma_fundamental_div_mod(i, 3);
        }
        assert(p.spec_bytes() =~= raw);
    }

    /// Decodes a PLTE payload, grouping the bytes into RGB triples; a
    /// byte count not divisible by three is rejected.
    pub fn decode(raw: &Vec<u8>) -> (r: Result<ChunkPalette, PngError>)
        ensures
            r matches Ok(p) ==> p@ == Self::spec_parse(raw@) && p.spec_bytes() == raw@,
            r is Ok <==> Self::spec_parses(raw@),
            r matches Err(e) ==> e == PngError::ChunkParseError,
    {
        if raw.len() % 3 != 0 {
            return Err(PngError::ChunkParseError);
        }
        let mut v: Vec<Palette> = Vec::new();
        let mut i: usize = 0;
        while i < raw.len()
            invariant
                i <= raw@.len(),
                i % 3 == 0,
                raw@.len() % 3 == 0,
                i == v@.len() * 3,
                forall|k: int| 0 <= k < v@.len() ==> v@[k] == Palette(
                    raw@[3 * k],
                    raw@[3 * k + 1],
                    raw@[3 * k + 2],
                ),
            decreases raw.len() - i,
        {
            proof {
                lemma_fundamental_div_mod(i as int, 3);
                lemma_fundamental_div_mod(raw@.len() as int, 3);
            }
            v.push(Palette(raw[i], raw[i + 1], raw[i + 2]));
            i += 3;
        }
        let p = ChunkPalette { palettes: v };
        proof {
            lemma_fundamental_div_mod(raw@.len() as int, 3);
            assert(p@ =~= Self::spec_parse(raw@));
            Self::lemma_parse_round_trip(raw@, p);
        }
        Ok(p)
    }

    /// Serializes the entries back to the payload bytes.
    pub fn as_bytes(&self) -> (r: Vec<u8>)
        ensures
            r@ == self.spec_bytes(),
    {
        let mut out: Vec<u8> = Vec::new();
        let mut k: usize = 0;
        while k < self.palettes.len()
            invariant
                k <= self.palettes@.len(),
                out@.len() == k * 3,
                forall|i: int| 0 <= i < out@.len() ==> out@[i] == spec_entry_byte(
                    self.palettes@[i / 3],
                    i % 3,
                ),
            decreases self.palettes.len() - k,
        {
            let p = self.palettes[k];
            out.push(p.0);
            out.push(p.1);
            out.push(p.2);
            proof {
                assert forall|i: int| 0 <= i < out@.len() implies out@[i] == spec_entry_byte(
                    self.palettes@[i / 3],
                    i % 3,
                ) by {
                    lemma_fundamental_div_mod(i, 3);
                    if i >= k * 3 {
                        assert((3 * (k as int)) / 3 == k as int && (3 * (k as int) + 1) / 3
                            == k as int && (3 * (k as int) + 2) / 3 == k as int && (3 * (
                        k as int)) % 3 == 0 && (3 * (k as int) + 1) % 3 == 1 && (3 * (k as int)
                            + 2) % 3 == 2) by (nonlinear_arith)
                            requires
                                k >= 0,
                        ;
                    }
                }
            }
            k += 1;
        }
        proof {
            assert(out@ =~= self.spec_bytes());
        }
        out
    }

    /// Renders the entries for display, one per line.
    pub fn render_as_text(&self) -> (r: String)
        ensures
            r@ == spec_render_palettes(self.palettes@),
    {
        let mut s = String::new();
        let mut k: usize = 0;
        while k < self.palettes.len()
            invariant
                k <= self.palettes@.len(),
                s@ == spec_render_palettes(self.palettes@.subrange(0, k as int)),
            decreases self.palettes@.len() - k,
        {
            if k > 0 {
                s.append("\n");
            }
            let line = self.palettes[k].render_as_text();
            s.append(line.as_str());
            proof {
                let cur = self.palettes@.subrange(0, k as int + 1);
                assert(cur.drop_last() =~= self.palettes@.subrange(0, k as int));
                assert(cur.last() == self.palettes@[k as int]);
            }
            k += 1;
        }
        proof {
            assert(self.palettes@.subrange(0, self.palettes@.len() as int) =~= self.palettes@);
        }
        s
    }

    /// The entry at `at`, if the palette has one there.
    pub fn get(&self, at: usize) -> (r: Option<&Palette>)
        ensures
            r matches Some(p) ==> at < self@.len() && p == self@[at as int],
            r is None <==> at >= self@.len(),
    {
        self.palettes.get(at)
    }
}

} // verus!
