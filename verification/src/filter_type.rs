//! The closed vocabulary of scanline filter types.

use vstd::prelude::*;
use crate::error::PngError;

verus! {

/// Filter Type
#[derive(Debug, Clone, Copy, PartialEq, Eq, Structural)]
pub enum FilterType {
    NoFilter,
    Sub,
    Up,
    Average,
    Paeth,
}

impl FilterType {
    /// The filter type a byte names, if any: only 0 to 4 are legal.
    pub open spec fn spec_try_from(v: u8) -> Result<FilterType, PngError> {
        if v == 0 {
            Ok(FilterType::NoFilter)
        } else if v == 1 {
            Ok(FilterType::Sub)
        } else if v == 2 {
            Ok(FilterType::Up)
        } else if v == 3 {
            Ok(FilterType::Average)
        } else if v == 4 {
            Ok(FilterType::Paeth)
        } else {
            Err(PngError::InvalidFilterType)
        }
    }

    /// The byte that names this filter type.
    pub open spec fn spec_byte(self) -> u8 {
        match self {
            FilterType::NoFilter => 0,
            FilterType::Sub => 1,
            FilterType::Up => 2,
            FilterType::Average => 3,
            FilterType::Paeth => 4,
        }
    }

    /// Reads a filter type from its byte.
    pub fn try_from(v: u8) -> (r: Result<FilterType, PngError>)
        ensures
            r == Self::spec_try_from(v),
    {
        match v {
            0 => Ok(FilterType::NoFilter),
            1 => Ok(FilterType::Sub),
            2 => Ok(FilterType::Up),
            3 => Ok(FilterType::Average),
            4 => Ok(FilterType::Paeth),
            _ => Err(PngError::InvalidFilterType),
        }
    }

    /// Writes the filter type back as its byte.
    pub fn into(self) -> (r: u8)
        ensures
            r == self.spec_byte(),
    {
        match self {
            FilterType::NoFilter => 0,
            FilterType::Sub => 1,
            FilterType::Up => 2,
            FilterType::Average => 3,
            FilterType::Paeth => 4,
        }
    }

    /// The display name of the filter type.
    pub fn render_as_text(&self) -> (r: String)
        ensures
            self is NoFilter ==> r@ == "None"@,
            self is Sub ==> r@ == "Sub"@,
            self is Up ==> r@ == "Up"@,
            self is Average ==> r@ == "Average"@,
            self is Paeth ==> r@ == "Paeth"@,
    {
        match self {
            FilterType::NoFilter => "None".to_owned(),
            FilterType::Sub => "Sub".to_owned(),
            FilterType::Up => "Up".to_owned(),
            FilterType::Average => "Average".to_owned(),
            FilterType::Paeth => "Paeth".to_owned(),
        }
    }
}

} // verus!
