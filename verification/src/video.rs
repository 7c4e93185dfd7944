//! Video related types and helpers.
use vstd::prelude::*;

pub mod pixel;

verus! {

/// The colour of the screen border.
#[allow(non_camel_case_types)]
#[derive(Debug, Clone, Copy, PartialEq, Eq, Hash, Structural)]
pub enum BorderColor {
    BLACK,
    BLUE,
    RED,
    MAGENTA,
    GREEN,
    CYAN,
    YELLOW,
    WHITE,
}

/// The error returned when an integer is not the value of a [BorderColor].
#[derive(Clone, Copy, Debug, PartialEq, Eq, Structural)]
pub struct TryFromU8BorderColorError(pub u8);

/// The 3-bit value of a border colour.
pub open spec fn spec_border_value(color: BorderColor) -> u8 {
    match color {
        BorderColor::BLACK => 0,
        BorderColor::BLUE => 1,
        BorderColor::RED => 2,
        BorderColor::MAGENTA => 3,
        BorderColor::GREEN => 4,
        BorderColor::CYAN => 5,
        BorderColor::YELLOW => 6,
        BorderColor::WHITE => 7,
    }
}

/// The border colour with the 3-bit value `value`.
pub open spec fn spec_border_color(value: u8) -> Option<BorderColor> {
    if value == 0 {
        Some(BorderColor::BLACK)
    } else if value == 1 {
        Some(BorderColor::BLUE)
    } else if value == 2 {
        Some(BorderColor::RED)
    } else if value == 3 {
        Some(BorderColor::MAGENTA)
    } else if value == 4 {
        Some(BorderColor::GREEN)
    } else if value == 5 {
        Some(BorderColor::CYAN)
    } else if value == 6 {
        Some(BorderColor::YELLOW)
    } else if value == 7 {
        Some(BorderColor::WHITE)
    } else {
        None
    }
}

impl From<BorderColor> for u8 {
    fn from(color: BorderColor) -> (r: u8) {
        match color {
            BorderColor::BLACK => 0,
            BorderColor::BLUE => 1,
            BorderColor::RED => 2,
            BorderColor::MAGENTA => 3,
            BorderColor::GREEN => 4,
            BorderColor::CYAN => 5,
            BorderColor::YELLOW => 6,
            BorderColor::WHITE => 7,
        }
    }
}

impl vstd::std_specs::convert::FromSpecImpl<BorderColor> for u8 {
    open spec fn obeys_from_spec() -> bool {
        true
    }

    open spec fn from_spec(color: BorderColor) -> u8 {
        spec_border_value(color)
    }
}

impl core::convert::TryFrom<u8> for BorderColor {
    type Error = TryFromU8BorderColorError;

    fn try_from(value: u8) -> (r: Result<BorderColor, TryFromU8BorderColorError>) {
        match value {
            0 => Ok(BorderColor::BLACK),
            1 => Ok(BorderColor::BLUE),
            2 => Ok(BorderColor::RED),
            3 => Ok(BorderColor::MAGENTA),
            4 => Ok(BorderColor::GREEN),
            5 => Ok(BorderColor::CYAN),
            6 => Ok(BorderColor::YELLOW),
            7 => Ok(BorderColor::WHITE),
            _ => Err(TryFromU8BorderColorError(value)),
        }
    }
}

impl vstd::std_specs::convert::TryFromSpecImpl<u8> for BorderColor {
    open spec fn obeys_try_from_spec() -> bool {
        true
    }

    open spec fn try_from_spec(value: u8) -> Result<BorderColor, TryFromU8BorderColorError> {
        match spec_border_color(value) {
            Some(color) => Ok(color),
            None => Err(TryFromU8BorderColorError(value)),
        }
    }
}

/// A border colour goes to its 3-bit value and back unchanged, and every value below 8 is
/// the value of exactly one border colour.
pub proof fn lemma_border_color_value(color: BorderColor, value: u8)
    ensures
        spec_border_color(spec_border_value(color)) == Some(color),
        spec_border_value(color) < 8,
        value < 8 <==> spec_border_color(value) is Some,
        value < 8 ==> spec_border_value(spec_border_color(value)->0) == value,
{
}

} // verus!
