//! Colours of four 8-bit channels and their packed 32-bit form.

use vstd::prelude::*;

verus! {

/// A colour: red, green, blue and alpha, each from 0 to 255.
#[derive(Debug, Clone, Copy, PartialEq, Eq, Structural)]
pub struct Color {
    pub r: u8,
    pub g: u8,
    pub b: u8,
    pub a: u8,
}

/// The packed form of four channels: alpha in the highest byte, then blue,
/// green, and red in the lowest.
pub open spec fn pack_bgra(r: u8, g: u8, b: u8, a: u8) -> u32 {
    (a as int * 0x100_0000 + b as int * 0x1_0000 + g as int * 0x100 + r as int) as u32
}

/// The byte of `packed` at position `index`, counted from the lowest.
pub open spec fn byte_of(packed: u32, index: nat) -> u8
    recommends
        index < 4,
{
    if index == 0 {
        (packed as int % 0x100) as u8
    } else if index == 1 {
        (packed as int / 0x100 % 0x100) as u8
    } else if index == 2 {
        (packed as int / 0x1_0000 % 0x100) as u8
    } else {
        (packed as int / 0x100_0000 % 0x100) as u8
    }
}

impl Color {
    /// The preset black, opaque.
    #[must_use]
    #[allow(non_snake_case)]
    pub fn BLACK() -> (c: Self)
        ensures
            c == (Color { r: 0, g: 0, b: 0, a: 255 }),
    {
        Self::from_rgb(0, 0, 0)
    }

    /// The preset white, opaque.
    #[must_use]
    #[allow(non_snake_case)]
    pub fn WHITE() -> (c: Self)
        ensures
            c == (Color { r: 255, g: 255, b: 255, a: 255 }),
    {
        Self::from_rgb(255, 255, 255)
    }

    /// The preset red, opaque.
    #[must_use]
    #[allow(non_snake_case)]
    pub fn RED() -> (c: Self)
        ensures
            c == (Color { r: 255, g: 0, b: 0, a: 255 }),
    {
        Self::from_rgb(255, 0, 0)
    }

    /// The preset green, opaque.
    #[must_use]
    #[allow(non_snake_case)]
    pub fn GREEN() -> (c: Self)
        ensures
            c == (Color { r: 0, g: 255, b: 0, a: 255 }),
    {
        Self::from_rgb(0, 255, 0)
    }

    /// The preset blue, opaque.
    #[must_use]
    #[allow(non_snake_case)]
    pub fn BLUE() -> (c: Self)
        ensures
            c == (Color { r: 0, g: 0, b: 255, a: 255 }),
    {
        Self::from_rgb(0, 0, 255)
    }

    /// The preset teal, opaque.
    #[must_use]
    #[allow(non_snake_case)]
    pub fn TEAL() -> (c: Self)
        ensures
            c == (Color { r: 0, g: 255, b: 255, a: 255 }),
    {
        Self::from_rgb(0, 255, 255)
    }

    /// The preset magenta, opaque.
    #[must_use]
    #[allow(non_snake_case)]
    pub fn MAGENTA() -> (c: Self)
        ensures
            c == (Color { r: 255, g: 0, b: 255, a: 255 }),
    {
        Self::from_rgb(255, 0, 255)
    }

    /// The preset yellow, opaque.
    #[must_use]
    #[allow(non_snake_case)]
    pub fn YELLOW() -> (c: Self)
        ensures
            c == (Color { r: 255, g: 255, b: 0, a: 255 }),
    {
        Self::from_rgb(255, 255, 0)
    }

    /// The packed form of this colour.
    pub open spec fn spec_as_bgra(&self) -> u32 {
        pack_bgra(self.r, self.g, self.b, self.a)
    }

    /// The colour whose packed form is `packed`.
    pub open spec fn spec_from_bgra(packed: u32) -> Color {
        Color {
            r: byte_of(packed, 0),
            g: byte_of(packed, 1),
            b: byte_of(packed, 2),
            a: byte_of(packed, 3),
        }
    }

    #[must_use]
    pub fn new(r: u8, g: u8, b: u8, a: u8) -> (c: Self)
        ensures
            c == (Color { r, g, b, a }),
    {
        Self { r, g, b, a }
    }

    /// An opaque colour.
    #[must_use]
    pub fn from_rgb(r: u8, g: u8, b: u8) -> (c: Self)
        ensures
            c == (Color { r, g, b, a: 255 }),
    {
        Self { r, g, b, a: 255 }
    }

    #[must_use]
    pub fn red(&self) -> (v: u8)
        ensures
            v == self.r,
    {
        self.r
    }

    #[must_use]
    pub fn green(&self) -> (v: u8)
        ensures
            v == self.g,
    {
        self.g
    }

    #[must_use]
    pub fn blue(&self) -> (v: u8)
        ensures
            v == self.b,
    {
        self.b
    }

    #[must_use]
    pub fn alpha(&self) -> (v: u8)
        ensures
            v == self.a,
    {
        self.a
    }

    /// Packs the four channels into one 32-bit pixel.
    #[inline]
    #[must_use]
    pub fn as_bgra(&self) -> (packed: u32)
        ensures
            packed == self.spec_as_bgra(),
    {
        let r: u32 = self.r as u32;
        let g: u32 = self.g as u32;
        let b: u32 = self.b as u32;
        let a: u32 = self.a as u32;
        assert((a << 24 | b << 16 | g << 8 | r) == a * 0x100_0000 + b * 0x1_0000 + g * 0x100 + r)
            by (bit_vector)
            requires
                r < 256,
                g < 256,
                b < 256,
                a < 256,
        ;
        a << 24 | b << 16 | g << 8 | r
    }

    /// Unpacks a 32-bit pixel into its four channels.
    #[must_use]
    pub fn from_bgra(packed: u32) -> (c: Self)
        ensures
            c == Color::spec_from_bgra(packed),
    {
        assert(packed & 0xFF == packed % 0x100) by (bit_vector);
        assert((packed >> 8) & 0xFF == packed / 0x100 % 0x100) by (bit_vector);
        assert((packed >> 16) & 0xFF == packed / 0x1_0000 % 0x100) by (bit_vector);
        assert((packed >> 24) & 0xFF == packed / 0x100_0000 % 0x100) by (bit_vector);
        Self {
            r: (packed & 0xFF) as u8,
            g: ((packed >> 8) & 0xFF) as u8,
            b: ((packed >> 16) & 0xFF) as u8,
            a: ((packed >> 24) & 0xFF) as u8,
        }
    }
}

/// Packing a colour and unpacking the result gives the colour back.
pub proof fn lemma_bgra_round_trip(c: Color)
    ensures
        Color::spec_from_bgra(c.spec_as_bgra()) == c,
{
    let p = c.a as int * 0x100_0000 + c.b as int * 0x1_0000 + c.g as int * 0x100 + c.r as int;
    assert(0 <= p <= u32::MAX);
    assert(c.spec_as_bgra() as int == p);
}

} // verus!
