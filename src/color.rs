//! 16-bit 5-6-5 colors, encoded through embedded-graphics.
use vstd::prelude::*;

verus! {

/// The 16-bit 5-6-5 storage of a color from its channels: each channel keeps
/// only the low bits that fit its field (5 red, 6 green, 5 blue).
pub open spec fn rgb565_bits(r: u8, g: u8, b: u8) -> u16 {
    ((r as int % 32) * 2048 + (g as int % 64) * 32 + (b as int % 32)) as u16
}

/// Relies on embedded_graphics::pixelcolor::Rgb565::new, which masks each
/// channel to its field width and packs red into bits 11..16, green into
/// 5..11 and blue into 0..5, and on IntoStorage::into_storage, which hands
/// back that packed `u16`.
#[verifier::external_body]
fn rgb565_storage(r: u8, g: u8, b: u8) -> (bits: u16)
    ensures
        bits == rgb565_bits(r, g, b),
{
    embedded_graphics::pixelcolor::IntoStorage::into_storage(
        embedded_graphics::pixelcolor::Rgb565::new(r, g, b),
    )
}

/// A pixel color in 16-bit 5-6-5 format.
#[derive(Clone, Copy, Debug, PartialEq, Eq, Structural)]
pub struct Color565 {
    pub raw: u16,
}

/// The largest red or blue channel value.
pub const MAX_RB: u8 = 31;

/// The largest green channel value.
pub const MAX_G: u8 = 63;

impl Color565 {
    /// Builds a color from its channels; bits above each field's width are
    /// dropped.
    pub fn new(r: u8, g: u8, b: u8) -> (c: Color565)
        ensures
            c.raw == rgb565_bits(r, g, b),
    {
        Color565 { raw: rgb565_storage(r, g, b) }
    }

    /// Full-intensity red.
    pub fn red() -> (c: Color565)
        ensures
            c.raw == 0xF800,
    {
        let c = Color565::new(MAX_RB, 0, 0);
        assert(rgb565_bits(31, 0, 0) == 0xF800);
        c
    }

    /// Full-intensity green.
    pub fn green() -> (c: Color565)
        ensures
            c.raw == 0x07E0,
    {
        let c = Color565::new(0, MAX_G, 0);
        assert(rgb565_bits(0, 63, 0) == 0x07E0);
        c
    }

    /// The color's 16-bit storage.
    pub fn into_storage(self) -> (bits: u16)
        ensures
            bits == self.raw,
    {
        self.raw
    }
}

} // verus!
