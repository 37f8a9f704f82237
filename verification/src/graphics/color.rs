//! Pixel colors: 32 bit ARGB8888 and 16 bit RGBA5551, and the conversions between them.

use vstd::prelude::*;

use crate::bits::{field16, field32, get_field16, get_field32, mask16, mask32, set_field16, set_field32, with_field16, with_field32};

verus! {

/// A pixel color type with a few well-known colors.
pub trait Color: Sized {
    /// White.
    #[allow(non_snake_case)]
    fn WHITE() -> Self;

    /// Black.
    #[allow(non_snake_case)]
    fn BLACK() -> Self;

    /// Red.
    #[allow(non_snake_case)]
    fn RED() -> Self;

    /// Green.
    #[allow(non_snake_case)]
    fn GREEN() -> Self;

    /// Blue.
    #[allow(non_snake_case)]
    fn BLUE() -> Self;

    /// The same color with the given alpha (0 to 255; formats with less precision keep what
    /// they can of it).
    spec fn spec_with_alpha(&self, field_value: u8) -> Self;

    /// The same color with the given alpha (0 to 255; formats with less precision keep what
    /// they can of it).
    fn with_alpha(&self, field_value: u8) -> (r: Self)
        ensures
            r == self.spec_with_alpha(field_value);
}

/// Widens a 5 bit color channel into an 8 bit one by repeating its top 3 bits at the bottom,
/// so that 0 stays 0 and 31 becomes 255.
pub open spec fn widen_5_to_8(value5: u8) -> u8 {
    ((value5 << 3u8) | (value5 >> 2u8)) as u8
}

fn widen_5_to_8_exec(value5: u8) -> (r: u8)
    requires
        value5 < 32,
    ensures
        r == widen_5_to_8(value5),
{
    (value5 << 3u8) | (value5 >> 2u8)
}

/// The RGBA5551 bits of a color.
pub open spec fn rgba5551_value(red: u8, green: u8, blue: u8, alpha: bool) -> u16 {
    ((red as u16) << 11u16) | ((green as u16) << 6u16) | ((blue as u16) << 1u16) | (if alpha { 1u16 } else { 0u16 })
}

/// The ARGB8888 bits of a color.
pub open spec fn argb8888_value(red: u8, green: u8, blue: u8, alpha: u8) -> u32 {
    ((alpha as u32) << 24u32) | ((red as u32) << 16u32) | ((green as u32) << 8u32) | (blue as u32)
}

/// A 16 bit color: 5 bits each of red, green and blue, and one bit of alpha.
#[derive(Clone, Copy, Debug, PartialEq, Eq, Structural)]
pub struct RGBA5551 {
    pub raw_value: u16,
}

impl View for RGBA5551 {
    type V = u16;

    open spec fn view(&self) -> u16 {
        self.raw_value
    }
}

impl RGBA5551 {
    /// The value with the given bits.
    pub fn new_with_raw_value(value: u16) -> (r: Self)
        ensures
            r@ == value,
    {
        Self { raw_value: value }
    }

    /// The bits of the value.
    pub fn raw_value(&self) -> (r: u16)
        ensures
            r == self@,
    {
        self.raw_value
    }

    /// The red channel (bits 11 to 15).
    pub fn red(&self) -> (r: u8)
        ensures
            r == field16(self@, 11, 5) as u8,
            r <= 0x1f,
    {
        let v = get_field16(self.raw_value, 11, 5);
        proof {
            crate::bits::lemma_mask16_values();
        }
        v as u8
    }

    /// The value with the red channel (bits 11 to 15) replaced; the new value must fit in 5 bits.
    pub fn with_red(&self, field_value: u8) -> (r: Self)
        requires
            field_value <= 0x1f,
        ensures
            r@ == set_field16(self@, 11, 5, field_value as u16),
    {
        proof {
            crate::bits::lemma_mask16_values();
        }
        Self { raw_value: with_field16(self.raw_value, 11, 5, field_value as u16) }
    }

    /// The green channel (bits 6 to 10).
    pub fn green(&self) -> (r: u8)
        ensures
            r == field16(self@, 6, 5) as u8,
            r <= 0x1f,
    {
        let v = get_field16(self.raw_value, 6, 5);
        proof {
            crate::bits::lemma_mask16_values();
        }
        v as u8
    }

    /// The value with the green channel (bits 6 to 10) replaced; the new value must fit in 5 bits.
    pub fn with_green(&self, field_value: u8) -> (r: Self)
        requires
            field_value <= 0x1f,
        ensures
            r@ == set_field16(self@, 6, 5, field_value as u16),
    {
        proof {
            crate::bits::lemma_mask16_values();
        }
        Self { raw_value: with_field16(self.raw_value, 6, 5, field_value as u16) }
    }

    /// The blue channel (bits 1 to 5).
    pub fn blue(&self) -> (r: u8)
        ensures
            r == field16(self@, 1, 5) as u8,
            r <= 0x1f,
    {
        let v = get_field16(self.raw_value, 1, 5);
        proof {
            crate::bits::lemma_mask16_values();
        }
        v as u8
    }

    /// The value with the blue channel (bits 1 to 5) replaced; the new value must fit in 5 bits.
    pub fn with_blue(&self, field_value: u8) -> (r: Self)
        requires
            field_value <= 0x1f,
        ensures
            r@ == set_field16(self@, 1, 5, field_value as u16),
    {
        proof {
            crate::bits::lemma_mask16_values();
        }
        Self { raw_value: with_field16(self.raw_value, 1, 5, field_value as u16) }
    }

    /// The alpha flag (bit 0).
    pub fn alpha(&self) -> (r: bool)
        ensures
            r == (field16(self@, 0, 1) == 1),
    {
        get_field16(self.raw_value, 0, 1) == 1
    }

    /// The value with the alpha flag (bit 0) replaced.
    pub fn with_alpha(&self, field_value: bool) -> (r: Self)
        ensures
            r@ == set_field16(self@, 0, 1, if field_value { 1 } else { 0 }),
    {
        proof {
            crate::bits::lemma_mask16_values();
        }
        Self { raw_value: with_field16(self.raw_value, 0, 1, if field_value { 1 } else { 0 }) }
    }
}

/// A 32 bit color: 8 bits each of alpha, red, green and blue.
#[derive(Clone, Copy, Debug, PartialEq, Eq, Structural)]
pub struct ARGB8888 {
    pub raw_value: u32,
}

impl View for ARGB8888 {
    type V = u32;

    open spec fn view(&self) -> u32 {
        self.raw_value
    }
}

impl ARGB8888 {
    /// The value with the given bits.
    pub fn new_with_raw_value(value: u32) -> (r: Self)
        ensures
            r@ == value,
    {
        Self { raw_value: value }
    }

    /// The bits of the value.
    pub fn raw_value(&self) -> (r: u32)
        ensures
            r == self@,
    {
        self.raw_value
    }

    /// The alpha channel (bits 24 to 31).
    pub fn alpha(&self) -> (r: u8)
        ensures
            r == field32(self@, 24, 8) as u8,
            r <= 0xff,
    {
        let v = get_field32(self.raw_value, 24, 8);
        proof {
            crate::bits::lemma_mask32_values();
        }
        v as u8
    }

    /// The value with the alpha channel (bits 24 to 31) replaced; the new value must fit in 8 bits.
    pub fn with_alpha(&self, field_value: u8) -> (r: Self)
        requires
            field_value <= 0xff,
        ensures
            r@ == set_field32(self@, 24, 8, field_value as u32),
    {
        proof {
            crate::bits::lemma_mask32_values();
        }
        Self { raw_value: with_field32(self.raw_value, 24, 8, field_value as u32) }
    }

    /// The red channel (bits 16 to 23).
    pub fn red(&self) -> (r: u8)
        ensures
            r == field32(self@, 16, 8) as u8,
            r <= 0xff,
    {
        let v = get_field32(self.raw_value, 16, 8);
        proof {
            crate::bits::lemma_mask32_values();
        }
        v as u8
    }

    /// The value with the red channel (bits 16 to 23) replaced; the new value must fit in 8 bits.
    pub fn with_red(&self, field_value: u8) -> (r: Self)
        requires
            field_value <= 0xff,
        ensures
            r@ == set_field32(self@, 16, 8, field_value as u32),
    {
        proof {
            crate::bits::lemma_mask32_values();
        }
        Self { raw_value: with_field32(self.raw_value, 16, 8, field_value as u32) }
    }

    /// The green channel (bits 8 to 15).
    pub fn green(&self) -> (r: u8)
        ensures
            r == field32(self@, 8, 8) as u8,
            r <= 0xff,
    {
        let v = get_field32(self.raw_value, 8, 8);
        proof {
            crate::bits::lemma_mask32_values();
        }
        v as u8
    }

    /// The value with the green channel (bits 8 to 15) replaced; the new value must fit in 8 bits.
    pub fn with_green(&self, field_value: u8) -> (r: Self)
        requires
            field_value <= 0xff,
        ensures
            r@ == set_field32(self@, 8, 8, field_value as u32),
    {
        proof {
            crate::bits::lemma_mask32_values();
        }
        Self { raw_value: with_field32(self.raw_value, 8, 8, field_value as u32) }
    }

    /// The blue channel (bits 0 to 7).
    pub fn blue(&self) -> (r: u8)
        ensures
            r == field32(self@, 0, 8) as u8,
            r <= 0xff,
    {
        let v = get_field32(self.raw_value, 0, 8);
        proof {
            crate::bits::lemma_mask32_values();
        }
        v as u8
    }

    /// The value with the blue channel (bits 0 to 7) replaced; the new value must fit in 8 bits.
    pub fn with_blue(&self, field_value: u8) -> (r: Self)
        requires
            field_value <= 0xff,
        ensures
            r@ == set_field32(self@, 0, 8, field_value as u32),
    {
        proof {
            crate::bits::lemma_mask32_values();
        }
        Self { raw_value: with_field32(self.raw_value, 0, 8, field_value as u32) }
    }
}

impl RGBA5551 {
    /// The color with the given channels, each below 32.
    pub fn new(red: u8, green: u8, blue: u8, alpha: bool) -> (r: Self)
        requires
            red < 32,
            green < 32,
            blue < 32,
        ensures
            r@ == rgba5551_value(red, green, blue, alpha),
    {
        let r = Self::new_with_raw_value(0).with_red(red).with_green(green).with_blue(blue).with_alpha(alpha);
        let a: u16 = if alpha { 1 } else { 0 };
        let rr = red as u16;
        let gg = green as u16;
        let bb = blue as u16;
        proof {
            lemma_channel_packing(rr, gg, bb, a, 0, 0, 0, 0);
        }
        r
    }

    /// The closest RGBA5551 color: the top 5 bits of each channel, and alpha set above 127.
    pub fn from_argb8888(value: ARGB8888) -> (r: Self)
        ensures
            r@ == rgba5551_value(
                (field32(value@, 16, 8) >> 3u32) as u8,
                (field32(value@, 8, 8) >> 3u32) as u8,
                (field32(value@, 0, 8) >> 3u32) as u8,
                field32(value@, 24, 8) > 127,
            ),
    {
        let (r8, g8, b8) = (value.red(), value.green(), value.blue());
        let (r5, g5, b5) = (r8 >> 3u8, g8 >> 3u8, b8 >> 3u8);
        proof {
            lemma_narrowing(value@);
        }
        Self::new(r5, g5, b5, value.alpha() > 127)
    }
}

impl ARGB8888 {
    /// The color with the given channels.
    pub fn new(red: u8, green: u8, blue: u8, alpha: u8) -> (r: Self)
        ensures
            r@ == argb8888_value(red, green, blue, alpha),
    {
        let r = Self::new_with_raw_value(0).with_red(red).with_green(green).with_blue(blue).with_alpha(alpha);
        let aa = alpha as u32;
        let rr = red as u32;
        let gg = green as u32;
        let bb = blue as u32;
        proof {
            lemma_channel_packing(0, 0, 0, 0, rr, gg, bb, aa);
        }
        r
    }
}

impl Color for RGBA5551 {
    fn WHITE() -> (r: Self)
        ensures
            r@ == rgba5551_value(31, 31, 31, false),
    {
        let r = Self::from_argb8888(ARGB8888::WHITE());
        proof {
            lemma_named_colors();
        }
        r
    }

    fn BLACK() -> (r: Self)
        ensures
            r@ == rgba5551_value(0, 0, 0, false),
    {
        let r = Self::from_argb8888(ARGB8888::BLACK());
        proof {
            lemma_named_colors();
        }
        r
    }

    fn RED() -> (r: Self)
        ensures
            r@ == rgba5551_value(31, 0, 0, false),
    {
        let r = Self::from_argb8888(ARGB8888::RED());
        proof {
            lemma_named_colors();
        }
        r
    }

    fn GREEN() -> (r: Self)
        ensures
            r@ == rgba5551_value(0, 31, 0, false),
    {
        let r = Self::from_argb8888(ARGB8888::GREEN());
        proof {
            lemma_named_colors();
        }
        r
    }

    fn BLUE() -> (r: Self)
        ensures
            r@ == rgba5551_value(0, 0, 31, false),
    {
        let r = Self::from_argb8888(ARGB8888::BLUE());
        proof {
            lemma_named_colors();
        }
        r
    }

    /// Alpha is set when the 8 bit alpha is above 127.
    open spec fn spec_with_alpha(&self, field_value: u8) -> Self {
        RGBA5551 { raw_value: set_field16(self@, 0, 1, if field_value > 127 { 1 } else { 0 }) }
    }

    fn with_alpha(&self, field_value: u8) -> (r: Self) {
        proof {
            crate::bits::lemma_mask16_values();
        }
        Self { raw_value: with_field16(self.raw_value, 0, 1, if field_value > 127 { 1 } else { 0 }) }
    }
}

impl Color for ARGB8888 {
    fn WHITE() -> (r: Self)
        ensures
            r@ == argb8888_value(255, 255, 255, 0),
    {
        Self::new(255, 255, 255, 0)
    }

    fn BLACK() -> (r: Self)
        ensures
            r@ == argb8888_value(0, 0, 0, 0),
    {
        Self::new(0, 0, 0, 0)
    }

    fn RED() -> (r: Self)
        ensures
            r@ == argb8888_value(255, 0, 0, 0),
    {
        Self::new(255, 0, 0, 0)
    }

    fn GREEN() -> (r: Self)
        ensures
            r@ == argb8888_value(0, 255, 0, 0),
    {
        Self::new(0, 255, 0, 0)
    }

    fn BLUE() -> (r: Self)
        ensures
            r@ == argb8888_value(0, 0, 255, 0),
    {
        Self::new(0, 0, 255, 0)
    }

    open spec fn spec_with_alpha(&self, field_value: u8) -> Self {
        ARGB8888 { raw_value: set_field32(self@, 24, 8, field_value as u32) }
    }

    fn with_alpha(&self, field_value: u8) -> (r: Self) {
        proof {
            crate::bits::lemma_mask32_values();
        }
        Self { raw_value: with_field32(self.raw_value, 24, 8, field_value as u32) }
    }
}

/// The ARGB8888 color of an RGBA5551 color: each channel widened to 8 bits, alpha 255 or 0.
pub open spec fn argb_of_rgba5551(value: u16) -> u32 {
    argb8888_value(
        widen_5_to_8(field16(value, 11, 5) as u8),
        widen_5_to_8(field16(value, 6, 5) as u8),
        widen_5_to_8(field16(value, 1, 5) as u8),
        if field16(value, 0, 1) == 1 { 0xFFu8 } else { 0u8 },
    )
}

impl From<ARGB8888> for RGBA5551 {
    fn from(value: ARGB8888) -> (r: Self)
        ensures
            r@ == rgba5551_value(
                (field32(value@, 16, 8) >> 3u32) as u8,
                (field32(value@, 8, 8) >> 3u32) as u8,
                (field32(value@, 0, 8) >> 3u32) as u8,
                field32(value@, 24, 8) > 127,
            ),
    {
        Self::from_argb8888(value)
    }
}

impl vstd::std_specs::convert::FromSpecImpl<ARGB8888> for RGBA5551 {
    open spec fn obeys_from_spec() -> bool {
        true
    }

    open spec fn from_spec(value: ARGB8888) -> Self {
        RGBA5551 {
            raw_value: rgba5551_value(
                (field32(value@, 16, 8) >> 3u32) as u8,
                (field32(value@, 8, 8) >> 3u32) as u8,
                (field32(value@, 0, 8) >> 3u32) as u8,
                field32(value@, 24, 8) > 127,
            ),
        }
    }
}

impl From<RGBA5551> for ARGB8888 {
    fn from(value: RGBA5551) -> (r: Self)
        ensures
            r@ == argb_of_rgba5551(value@),
    {
        let r = ARGB8888::new(
            widen_5_to_8_exec(value.red()),
            widen_5_to_8_exec(value.green()),
            widen_5_to_8_exec(value.blue()),
            if value.alpha() { 0xFF } else { 0x00 },
        );
        r
    }
}

impl vstd::std_specs::convert::FromSpecImpl<RGBA5551> for ARGB8888 {
    open spec fn obeys_from_spec() -> bool {
        true
    }

    open spec fn from_spec(value: RGBA5551) -> Self {
        ARGB8888 { raw_value: argb_of_rgba5551(value@) }
    }
}

/// Widening an RGBA5551 color to ARGB8888 and narrowing it back gives the same color.
pub proof fn lemma_rgba5551_argb8888_roundtrip(value: u16)
    ensures
        ({
            let w = argb_of_rgba5551(value);
            rgba5551_value(
                (field32(w, 16, 8) >> 3u32) as u8,
                (field32(w, 8, 8) >> 3u32) as u8,
                (field32(w, 0, 8) >> 3u32) as u8,
                field32(w, 24, 8) > 127,
            ) == value
        }),
{
    lemma_roundtrip_bits(value);
}

/// Widening a 5 bit channel reaches both full black and full white, keeps the order of the
/// channel values (colors stay smooth), and keeps the 5 bits at the top.
pub proof fn lemma_widen_5_to_8(v: u8, w: u8)
    by (bit_vector)
    ensures
        widen_5_to_8(0) == 0,
        widen_5_to_8(31) == 255,
        v < w < 32 ==> widen_5_to_8(v) < widen_5_to_8(w),
        v < 32 ==> widen_5_to_8(v) >> 3u8 == v,
{
}

/// Packing channels into a color with the field setters gives the plain packed value.
proof fn lemma_channel_packing(rr: u16, gg: u16, bb: u16, a: u16, ar: u32, ag: u32, ab: u32, aa: u32)
    by (bit_vector)
    ensures
        rr < 32 && gg < 32 && bb < 32 && a <= 1 ==> set_field16(set_field16(set_field16(set_field16(0, 11, 5, rr), 6, 5, gg), 1, 5, bb), 0, 1, a)
            == (rr << 11u16) | (gg << 6u16) | (bb << 1u16) | a,
        ar < 256 && ag < 256 && ab < 256 && aa < 256 ==> set_field32(set_field32(set_field32(set_field32(0, 16, 8, ar), 8, 8, ag), 0, 8, ab), 24, 8, aa)
            == (aa << 24u32) | (ar << 16u32) | (ag << 8u32) | ab,
{
}

/// The top 5 bits of an 8 bit channel, taken in 8 or in 32 bits.
proof fn lemma_narrowing(v: u32)
    by (bit_vector)
    ensures
        (field32(v, 16, 8) as u8) >> 3u8 < 32,
        (field32(v, 8, 8) as u8) >> 3u8 < 32,
        (field32(v, 0, 8) as u8) >> 3u8 < 32,
        (field32(v, 16, 8) as u8) >> 3u8 == (field32(v, 16, 8) >> 3u32) as u8,
        (field32(v, 8, 8) as u8) >> 3u8 == (field32(v, 8, 8) >> 3u32) as u8,
        (field32(v, 0, 8) as u8) >> 3u8 == (field32(v, 0, 8) >> 3u32) as u8,
        field32(v, 24, 8) < 256,
{
}

/// The RGBA5551 values of the named colors.
proof fn lemma_named_colors()
    by (bit_vector)
    ensures
        rgba5551_value((field32(argb8888_value(255, 255, 255, 0), 16, 8) >> 3u32) as u8, (field32(argb8888_value(255, 255, 255, 0), 8, 8) >> 3u32) as u8,
            (field32(argb8888_value(255, 255, 255, 0), 0, 8) >> 3u32) as u8, field32(argb8888_value(255, 255, 255, 0), 24, 8) > 127) == rgba5551_value(31, 31, 31, false),
        rgba5551_value((field32(argb8888_value(0, 0, 0, 0), 16, 8) >> 3u32) as u8, (field32(argb8888_value(0, 0, 0, 0), 8, 8) >> 3u32) as u8,
            (field32(argb8888_value(0, 0, 0, 0), 0, 8) >> 3u32) as u8, field32(argb8888_value(0, 0, 0, 0), 24, 8) > 127) == rgba5551_value(0, 0, 0, false),
        rgba5551_value((field32(argb8888_value(255, 0, 0, 0), 16, 8) >> 3u32) as u8, (field32(argb8888_value(255, 0, 0, 0), 8, 8) >> 3u32) as u8,
            (field32(argb8888_value(255, 0, 0, 0), 0, 8) >> 3u32) as u8, field32(argb8888_value(255, 0, 0, 0), 24, 8) > 127) == rgba5551_value(31, 0, 0, false),
        rgba5551_value((field32(argb8888_value(0, 255, 0, 0), 16, 8) >> 3u32) as u8, (field32(argb8888_value(0, 255, 0, 0), 8, 8) >> 3u32) as u8,
            (field32(argb8888_value(0, 255, 0, 0), 0, 8) >> 3u32) as u8, field32(argb8888_value(0, 255, 0, 0), 24, 8) > 127) == rgba5551_value(0, 31, 0, false),
        rgba5551_value((field32(argb8888_value(0, 0, 255, 0), 16, 8) >> 3u32) as u8, (field32(argb8888_value(0, 0, 255, 0), 8, 8) >> 3u32) as u8,
            (field32(argb8888_value(0, 0, 255, 0), 0, 8) >> 3u32) as u8, field32(argb8888_value(0, 0, 255, 0), 24, 8) > 127) == rgba5551_value(0, 0, 31, false),
{
}

proof fn lemma_roundtrip_bits(value: u16)
    by (bit_vector)
    ensures
        ({
            let w = argb_of_rgba5551(value);
            rgba5551_value(
                (field32(w, 16, 8) >> 3u32) as u8,
                (field32(w, 8, 8) >> 3u32) as u8,
                (field32(w, 0, 8) >> 3u32) as u8,
                field32(w, 24, 8) > 127,
            ) == value
        }),
{
}

/// Where the channels sit: RGBA5551 has red in bits 11 to 15, green in 6 to 10, blue in 1 to 5
/// and alpha in bit 0; ARGB8888 has alpha in bits 24 to 31, red in 16 to 23, green in 8 to 15
/// and blue in 0 to 7.
pub proof fn lemma_channel_positions(r: u8, g: u8, b: u8, a: bool, ar: u8, ag: u8, ab: u8, aa: u8)
    ensures
        r < 32 && g < 32 && b < 32 ==> {
            &&& field16(rgba5551_value(r, g, b, a), 11, 5) == r as u16
            &&& field16(rgba5551_value(r, g, b, a), 6, 5) == g as u16
            &&& field16(rgba5551_value(r, g, b, a), 1, 5) == b as u16
            &&& field16(rgba5551_value(r, g, b, a), 0, 1) == if a { 1u16 } else { 0u16 }
        },
        field32(argb8888_value(ar, ag, ab, aa), 24, 8) == aa as u32,
        field32(argb8888_value(ar, ag, ab, aa), 16, 8) == ar as u32,
        field32(argb8888_value(ar, ag, ab, aa), 8, 8) == ag as u32,
        field32(argb8888_value(ar, ag, ab, aa), 0, 8) == ab as u32,
{
    let al: u16 = if a { 1 } else { 0 };
    assert(rgba5551_value(r, g, b, a) == ((r as u16) << 11u16) | ((g as u16) << 6u16) | ((b as u16) << 1u16) | al);
    assert({
        let v = ((r as u16) << 11u16) | ((g as u16) << 6u16) | ((b as u16) << 1u16) | al;
        let w = argb8888_value(ar, ag, ab, aa);
        &&& r < 32 && g < 32 && b < 32 ==> {
            &&& field16(v, 11, 5) == r as u16
            &&& field16(v, 6, 5) == g as u16
            &&& field16(v, 1, 5) == b as u16
            &&& field16(v, 0, 1) == al
        }
        &&& field32(w, 24, 8) == aa as u32
        &&& field32(w, 16, 8) == ar as u32
        &&& field32(w, 8, 8) == ag as u32
        &&& field32(w, 0, 8) == ab as u32
    }) by (bit_vector)
        requires
            al <= 1;
}

} // verus!
