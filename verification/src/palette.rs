//! The colours given to rendered colliders.

use vstd::prelude::*;

verus! {

/// An opaque colour, one byte per channel.
#[derive(Clone, Copy, Debug, PartialEq, Eq, Structural)]
pub struct Rgb {
    pub r: u8,
    pub g: u8,
    pub b: u8,
}

/// How many colours the palette of moving bodies holds.
pub const PALETTE_LEN: usize = 3;

/// The sand tone shared by all colliders of static bodies.
pub open spec fn ground_rgb() -> Rgb {
    Rgb { r: 0xF3, g: 0xD9, b: 0xB1 }
}

/// The palette entry at `slot`, counted from zero; the palette is read cyclically.
pub open spec fn palette_rgb(slot: int) -> Rgb {
    let at = slot % 3;
    if at == 0 {
        Rgb { r: 0x98, g: 0xC1, b: 0xD9 }
    } else if at == 1 {
        Rgb { r: 0x05, g: 0x3C, b: 0x5E }
    } else {
        Rgb { r: 0x1F, g: 0x7A, b: 0x8C }
    }
}

/// The colour of colliders attached to static bodies.
pub fn ground_color() -> (c: Rgb)
    ensures
        c == ground_rgb(),
{
    Rgb { r: 0xF3, g: 0xD9, b: 0xB1 }
}

/// The palette colour for `slot`; slots beyond the palette wrap around.
pub fn palette_color(slot: usize) -> (c: Rgb)
    ensures
        c == palette_rgb(slot as int),
{
    let at: usize = slot % PALETTE_LEN;
    if at == 0 {
        Rgb { r: 0x98, g: 0xC1, b: 0xD9 }
    } else if at == 1 {
        Rgb { r: 0x05, g: 0x3C, b: 0x5E }
    } else {
        Rgb { r: 0x1F, g: 0x7A, b: 0x8C }
    }
}

} // verus!
