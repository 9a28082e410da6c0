use embedded_graphics_core::pixelcolor::Rgb565;
use embedded_graphics_core::prelude::IntoStorage;
use vstd::prelude::*;

verus! {

/// The 16-bit storage word of a 5-6-5 color: red in bits 11..16, green in
/// bits 5..11, blue in bits 0..5; channel bits above the channel width are
/// dropped.
pub open spec fn rgb565_word(r: u8, g: u8, b: u8) -> u16 {
    ((((r & 0x1f) as u16) << 11u16) | (((g & 0x3f) as u16) << 5u16) | ((b & 0x1f) as u16)) as u16
}

/// Relies on `Rgb565::new` and `IntoStorage::into_storage` of
/// embedded-graphics-core: `new` masks each channel to its width and packs
/// it at its position, and `into_storage` hands back that packed word.
#[verifier::external_body]
fn rgb565_storage(r: u8, g: u8, b: u8) -> (w: u16)
    ensures
        w == rgb565_word(r, g, b),
{
    Rgb565::new(r, g, b).into_storage()
}

/// A pixel color in the controller's native 16-bit 5-6-5 format, held as
/// its storage word.
#[derive(Clone, Copy, Debug, PartialEq, Eq, Structural)]
pub struct Color565 {
    pub raw: u16,
}

impl Color565 {
    /// The color with the given red (5 bits), green (6 bits) and blue
    /// (5 bits) channels; higher channel bits are ignored.
    pub fn new(r: u8, g: u8, b: u8) -> (c: Color565)
        ensures
            c.raw == rgb565_word(r, g, b),
    {
        Color565 { raw: rgb565_storage(r, g, b) }
    }

    /// The color whose storage word is `raw`.
    pub fn from_storage(raw: u16) -> (c: Color565)
        ensures
            c.raw == raw,
    {
        Color565 { raw }
    }

    /// The storage word of this color.
    pub fn into_storage(self) -> (w: u16)
        ensures
            w == self.raw,
    {
        self.raw
    }
}

} // verus!
