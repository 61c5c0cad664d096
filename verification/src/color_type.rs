//! The closed vocabulary of color types and their channel counts.

use vstd::prelude::*;
use crate::error::PngError;

verus! {

/// Color Type
#[derive(Debug, Clone, Copy, PartialEq, Eq, Structural)]
pub enum ColorType {
    /// Color Type: 0; allowed bit depths: 1, 2, 4, 8, 16
    Grayscale,
    /// Color Type: 2; allowed bit depths: 8, 16
    Rgb,
    /// Color Type: 3; allowed bit depths: 1, 2, 4, 8
    PaletteIndex,
    /// Color Type: 4; allowed bit depths: 8, 16
    GrayscaleWithAlpha,
    /// Color Type: 6; allowed bit depths: 8, 16
    RgbWithAlpha,
}

impl ColorType {
    /// The color type a byte names, if any: only 0, 2, 3, 4 and 6 are
    /// legal.
    pub open spec fn spec_try_from(v: u8) -> Result<ColorType, PngError> {
        if v == 0 {
            Ok(ColorType::Grayscale)
        } else if v == 2 {
            Ok(ColorType::Rgb)
        } else if v == 3 {
            Ok(ColorType::PaletteIndex)
        } else if v == 4 {
            Ok(ColorType::GrayscaleWithAlpha)
        } else if v == 6 {
            Ok(ColorType::RgbWithAlpha)
        } else {
            Err(PngError::InvalidColorType)
        }
    }

    /// The byte that names this color type.
    pub open spec fn spec_byte(self) -> u8 {
        match self {
            ColorType::Grayscale => 0,
            ColorType::Rgb => 2,
            ColorType::PaletteIndex => 3,
            ColorType::GrayscaleWithAlpha => 4,
            ColorType::RgbWithAlpha => 6,
        }
    }

    /// The number of channels per pixel under this color type.
    pub open spec fn spec_channels(self) -> u8 {
        match self {
            ColorType::Grayscale => 1,
            ColorType::Rgb => 3,
            ColorType::PaletteIndex => 1,
            ColorType::GrayscaleWithAlpha => 2,
            ColorType::RgbWithAlpha => 4,
        }
    }

    /// Reads a color type from its byte.
    pub fn try_from(v: u8) -> (r: Result<ColorType, PngError>)
        ensures
            r == Self::spec_try_from(v),
    {
        match v {
            0 => Ok(ColorType::Grayscale),
            2 => Ok(ColorType::Rgb),
            3 => Ok(ColorType::PaletteIndex),
            4 => Ok(ColorType::GrayscaleWithAlpha),
            6 => Ok(ColorType::RgbWithAlpha),
            _ => Err(PngError::InvalidColorType),
        }
    }

    /// Writes the color type back as its byte.
    pub fn into(self) -> (r: u8)
        ensures
            r == self.spec_byte(),
    {
        match self {
            ColorType::Grayscale => 0,
            ColorType::Rgb => 2,
            ColorType::PaletteIndex => 3,
            ColorType::GrayscaleWithAlpha => 4,
            ColorType::RgbWithAlpha => 6,
        }
    }

    /// The number of channels per pixel.
    pub fn channels(&self) -> (r: u8)
        ensures
            r == self.spec_channels(),
    {
        match self {
            ColorType::Grayscale => 1,
            ColorType::Rgb => 3,
            ColorType::PaletteIndex => 1,
            ColorType::GrayscaleWithAlpha => 2,
            ColorType::RgbWithAlpha => 4,
        }
    }

    /// The display name of the color type.
    pub open spec fn spec_render(self) -> Seq<char> {
        match self {
            ColorType::Grayscale => "Grayscale"@,
            ColorType::Rgb => "RGB"@,
            ColorType::PaletteIndex => "Palette Index"@,
            ColorType::GrayscaleWithAlpha => "Grayscale(with alpha)"@,
            ColorType::RgbWithAlpha => "RGBA"@,
        }
    }

    /// Renders the display name of the color type.
    pub fn render_as_text(&self) -> (r: String)
        ensures
            r@ == self.spec_render(),
    {
        match self {
            ColorType::Grayscale => "Grayscale".to_owned(),
            ColorType::Rgb => "RGB".to_owned(),
            ColorType::PaletteIndex => "Palette Index".to_owned(),
            ColorType::GrayscaleWithAlpha => "Grayscale(with alpha)".to_owned(),
            ColorType::RgbWithAlpha => "RGBA".to_owned(),
        }
    }
}

} // verus!
