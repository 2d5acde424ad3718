//! A colour of three 8-bit channels and an opacity in single precision.

use vstd::prelude::*;
use crate::single::{clamp_unit, unit_clamped, unit_from_byte, unit_from_byte_bits, ONE};

verus! {

/// Red, green and blue as bytes, and an opacity between zero and one as a
/// single-precision pattern.
#[derive(Clone, Copy, Debug)]
pub struct RGBA {
    r: u8,
    g: u8,
    b: u8,
    a: u32,
}

impl View for RGBA {
    type V = (u8, u8, u8, u32);

    /// The three channels and the opacity.
    closed spec fn view(&self) -> (u8, u8, u8, u32) {
        (self.r, self.g, self.b, self.a)
    }
}

/// The four bytes of a packed colour, the most significant first.
pub open spec fn big_endian_bytes(packed: u32) -> (u8, u8, u8, u8) {
    (
        (packed / 0x100_0000) as u8,
        (packed / 0x1_0000 % 0x100) as u8,
        (packed / 0x100 % 0x100) as u8,
        (packed % 0x100) as u8,
    )
}

/// The four numbers that a colour hands to a shader: each channel as a share
/// of 255, then the opacity.
pub open spec fn normalized(channels: (u8, u8, u8, u32)) -> Seq<u32> {
    seq![
        unit_from_byte_bits(channels.0),
        unit_from_byte_bits(channels.1),
        unit_from_byte_bits(channels.2),
        channels.3,
    ]
}

impl RGBA {
    /// A colour of the given channels. An opacity above one becomes one, and
    /// one below zero becomes zero.
    #[must_use]
    pub fn new(red: u8, green: u8, blue: u8, alpha: u32) -> (color: Self)
        ensures
            color@ == (red, green, blue, unit_clamped(alpha)),
    {
        RGBA { r: red, g: green, b: blue, a: clamp_unit(alpha) }
    }

    /// Opaque black.
    #[must_use]
    pub fn empty() -> (color: Self)
        ensures
            color@ == (0u8, 0u8, 0u8, ONE),
    {
        RGBA { r: 0, g: 0, b: 0, a: ONE }
    }

    /// Reads a colour from its packed form `0xRRGGBBAA`. The last byte is the
    /// opacity as a share of 255.
    #[must_use]
    pub fn from_hex(color: u32) -> (unpacked: Self)
        ensures
            unpacked@ == (
                big_endian_bytes(color).0,
                big_endian_bytes(color).1,
                big_endian_bytes(color).2,
                unit_from_byte_bits(big_endian_bytes(color).3),
            ),
    {
        let red: u8 = (color / 0x100_0000) as u8;
        let green: u8 = (color / 0x1_0000 % 0x100) as u8;
        let blue: u8 = (color / 0x100 % 0x100) as u8;
        let alpha: u8 = (color % 0x100) as u8;
        RGBA { r: red, g: green, b: blue, a: unit_from_byte(alpha) }
    }

    /// The colour as four single-precision numbers between zero and one.
    #[must_use]
    pub fn get_as_normalized_f32(&self) -> (numbers: [u32; 4])
        ensures
            numbers@ == normalized(self@),
    {
        let red: u32 = unit_from_byte(self.r);
        let green: u32 = unit_from_byte(self.g);
        let blue: u32 = unit_from_byte(self.b);
        let numbers: [u32; 4] = [red, green, blue, self.a];
        assert(numbers@ =~= normalized(self@));
        numbers
    }

    /// The channels and the opacity as they are stored.
    #[must_use]
    pub fn get_rgba(&self) -> (channels: (u8, u8, u8, u32))
        ensures
            channels == self@,
    {
        (self.r, self.g, self.b, self.a)
    }
}

} // verus!
