//! Sample colors, one shape per color type.

use vstd::prelude::*;
use vstd::string::StringExecFns;
use crate::strutil::{spec_dec_chars, u32_to_dec_string};

verus! {

/// A sample color under each color type.
#[derive(Debug, Clone, Copy, PartialEq, Eq, Structural)]
pub enum Color {
    Grayscale(u8, u8, u8),
    Rgb(u8, u8, u8),
    PaletteIndex(u8, u8, u8, u8),
    GrayscaleA(u8, u8, u8, u8),
    RgbA(u8, u8, u8, u8),
}

/// Three values rendered as "a, b, c".
pub open spec fn spec_triple_chars(a: u8, b: u8, c: u8) -> Seq<char> {
    spec_dec_chars(a as int) + ", "@ + spec_dec_chars(b as int) + ", "@ + spec_dec_chars(c as int)
}

/// Four values rendered as "a, b, c, d".
pub open spec fn spec_quad_chars(a: u8, b: u8, c: u8, d: u8) -> Seq<char> {
    spec_triple_chars(a, b, c) + ", "@ + spec_dec_chars(d as int)
}

/// Appends "a, b, c" to `s`.
pub(crate) fn push_triple(s: &mut String, a: u8, b: u8, c: u8)
    ensures
        final(s)@ == old(s)@ + spec_triple_chars(a, b, c),
{
    let d = u32_to_dec_string(a as u32);
    s.append(d.as_str());
    s.append(", ");
    let d = u32_to_dec_string(b as u32);
    s.append(d.as_str());
    s.append(", ");
    let d = u32_to_dec_string(c as u32);
    s.append(d.as_str());
}

/// Appends "a, b, c, d" to `s`.
pub(crate) fn push_quad(s: &mut String, a: u8, b: u8, c: u8, d: u8)
    ensures
        final(s)@ == old(s)@ + spec_quad_chars(a, b, c, d),
{
    push_triple(s, a, b, c);
    s.append(", ");
    let t = u32_to_dec_string(d as u32);
    s.append(t.as_str());
}

impl Color {
    /// The display form of the color.
    pub open spec fn spec_render(self) -> Seq<char> {
        match self {
            Color::Grayscale(a, b, c) => "Grayscale("@ + spec_triple_chars(a, b, c) + ")"@,
            Color::Rgb(r, g, b) => "RGB("@ + spec_triple_chars(r, g, b) + ")"@,
            Color::PaletteIndex(r, g, b, alpha) => "Palette("@ + spec_quad_chars(r, g, b, alpha)
                + ")"@,
            Color::GrayscaleA(a, b, c, alpha) => "GrayscaleAlpha("@ + spec_quad_chars(
                a,
                b,
                c,
                alpha,
            ) + ")"@,
            Color::RgbA(r, g, b, a) => "RGBA("@ + spec_quad_chars(r, g, b, a) + ")"@,
        }
    }

    /// Renders the color for display.
    pub fn render_as_text(&self) -> (r: String)
        ensures
            r@ == self.spec_render(),
    {
        let mut s = String::new();
        match self {
            Color::Grayscale(a, b, c) => {
                s.append("Grayscale(");
                push_triple(&mut s, *a, *b, *c);
                s.append(")");
            },
            Color::Rgb(r, g, b) => {
                s.append("RGB(");
                push_triple(&mut s, *r, *g, *b);
                s.append(")");
            },
            Color::PaletteIndex(r, g, b, alpha) => {
                s.append("Palette(");
                push_quad(&mut s, *r, *g, *b, *alpha);
                s.append(")");
            },
            Color::GrayscaleA(a, b, c, alpha) => {
                s.append("GrayscaleAlpha(");
                push_quad(&mut s, *a, *b, *c, *alpha);
                s.append(")");
            },
            Color::RgbA(r, g, b, a) => {
                s.append("RGBA(");
                push_quad(&mut s, *r, *g, *b, *a);
                s.append(")");
            },
        }
        s
    }
}

} // verus!
