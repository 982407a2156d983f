use vstd::prelude::*;

verus! {

/// A colour as callers give it: opaque, or with an alpha channel.
#[derive(Clone, Copy, Debug, PartialEq, Eq, Structural)]
pub enum Color {
    RGB(u8, u8, u8),
    RGBA(u8, u8, u8, u8),
}

/// A colour in the layout the native renderer takes: four channels.
#[derive(Clone, Copy, Debug, PartialEq, Eq, Structural)]
pub struct CColor {
    pub r: u8,
    pub g: u8,
    pub b: u8,
    pub a: u8,
}

/// Alpha of a fully opaque colour.
pub const OPAQUE: u8 = 255;

/// The four channels of a colour; an opaque colour has full alpha.
pub open spec fn channels(color: Color) -> CColor {
    match color {
        Color::RGB(r, g, b) => CColor { r, g, b, a: OPAQUE },
        Color::RGBA(r, g, b, a) => CColor { r, g, b, a },
    }
}

/// Converts a colour to the native renderer's layout.
pub fn color_to_c_color(color: Color) -> (r: CColor)
    ensures
        r == channels(color),
{
    match color {
        Color::RGB(r, g, b) => CColor { r, g, b, a: OPAQUE },
        Color::RGBA(r, g, b, a) => CColor { r, g, b, a },
    }
}

} // verus!
