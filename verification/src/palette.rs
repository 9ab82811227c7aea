//! The fixed sixteen-entry color palette and the exact pixel lookup table.

use vstd::prelude::*;

verus! {

/// One of the sixteen colors the canvas accepts. Each color has a fixed
/// numeric palette index used verbatim in the wire payload.
#[derive(Clone, Copy, Debug, PartialEq, Eq, Structural)]
pub enum Color {
    Red,
    Orange,
    Yellow,
    DarkGreen,
    LightGreen,
    DarkBlue,
    Blue,
    LightBlue,
    DarkPurple,
    Purple,
    LightPink,
    Brown,
    Black,
    Gray,
    LightGray,
    White,
}

/// The palette index of a color, as the remote service numbers them.
pub open spec fn color_index(c: Color) -> int {
    match c {
        Color::Red => 2,
        Color::Orange => 3,
        Color::Yellow => 4,
        Color::DarkGreen => 6,
        Color::LightGreen => 8,
        Color::DarkBlue => 12,
        Color::Blue => 13,
        Color::LightBlue => 14,
        Color::DarkPurple => 17,
        Color::Purple => 18,
        Color::LightPink => 23,
        Color::Brown => 25,
        Color::Black => 27,
        Color::Gray => 29,
        Color::LightGray => 30,
        Color::White => 31,
    }
}

/// The exact-match lookup from a raw 32-bit pixel value to its palette color.
/// Values not in the table have no color.
pub open spec fn pixel_color(hex: u32) -> Option<Color> {
    match hex {
        4278207999u32 => Some(Color::Red),
        4278233343u32 => Some(Color::Orange),
        4281718527u32 => Some(Color::Yellow),
        4285047552u32 => Some(Color::DarkGreen),
        4283886974u32 => Some(Color::LightGreen),
        4288958500u32 => Some(Color::DarkBlue),
        4293562422u32 => Some(Color::Blue),
        4294240593u32 => Some(Color::LightBlue),
        4288618113u32 => Some(Color::DarkPurple),
        4290792116u32 => Some(Color::Purple),
        4289370623u32 => Some(Color::LightPink),
        4280707484u32 => Some(Color::Brown),
        4278190080u32 => Some(Color::Black),
        4287663497u32 => Some(Color::Gray),
        4292466644u32 => Some(Color::LightGray),
        4294967295u32 => Some(Color::White),
        _ => None,
    }
}

impl Color {
    /// The palette index of this color, for the wire payload.
    pub fn index(&self) -> (r: i32)
        ensures
            r == color_index(*self),
    {
        match self {
            Color::Red => 2,
            Color::Orange => 3,
            Color::Yellow => 4,
            Color::DarkGreen => 6,
            Color::LightGreen => 8,
            Color::DarkBlue => 12,
            Color::Blue => 13,
            Color::LightBlue => 14,
            Color::DarkPurple => 17,
            Color::Purple => 18,
            Color::LightPink => 23,
            Color::Brown => 25,
            Color::Black => 27,
            Color::Gray => 29,
            Color::LightGray => 30,
            Color::White => 31,
        }
    }
}

/// Looks a raw 32-bit pixel value up in the fixed palette table.
pub fn hex_to_color(hex: u32) -> (r: Option<Color>)
    ensures
        r == pixel_color(hex),
{
    match hex {
        4278207999u32 => Some(Color::Red),
        4278233343u32 => Some(Color::Orange),
        4281718527u32 => Some(Color::Yellow),
        4285047552u32 => Some(Color::DarkGreen),
        4283886974u32 => Some(Color::LightGreen),
        4288958500u32 => Some(Color::DarkBlue),
        4293562422u32 => Some(Color::Blue),
        4294240593u32 => Some(Color::LightBlue),
        4288618113u32 => Some(Color::DarkPurple),
        4290792116u32 => Some(Color::Purple),
        4289370623u32 => Some(Color::LightPink),
        4280707484u32 => Some(Color::Brown),
        4278190080u32 => Some(Color::Black),
        4287663497u32 => Some(Color::Gray),
        4292466644u32 => Some(Color::LightGray),
        4294967295u32 => Some(Color::White),
        _ => None,
    }
}

/// Every raw pixel value outside the sixteen table entries maps to no color:
/// unmatched pixels are dropped, never approximated.
pub proof fn lemma_unmatched_pixel_has_no_color(hex: u32)
    requires
        hex != 4278207999u32,
        hex != 4278233343u32,
        hex != 4281718527u32,
        hex != 4285047552u32,
        hex != 4283886974u32,
        hex != 4288958500u32,
        hex != 4293562422u32,
        hex != 4294240593u32,
        hex != 4288618113u32,
        hex != 4290792116u32,
        hex != 4289370623u32,
        hex != 4280707484u32,
        hex != 4278190080u32,
        hex != 4287663497u32,
        hex != 4292466644u32,
        hex != 4294967295u32,
    ensures
        pixel_color(hex) is None,
{
}

} // verus!
