//! RDP render modes: the "othermode" word and the blender settings in it.

use vstd::prelude::*;

use crate::bits::{field64, set_field64, with_field64};

verus! {

/// How many cycles the RDP spends per pixel, or a copy or fill mode.
#[derive(Clone, Copy, Debug, PartialEq, Eq, Structural)]
pub enum CycleType {
    SingleCycle, DualCycle, Copy, Fill,
}

impl CycleType {
    /// The two bit encoding.
    pub open spec fn spec_value(&self) -> u8 {
        match *self {
            CycleType::SingleCycle => 0,
            CycleType::DualCycle => 1,
            CycleType::Copy => 2,
            CycleType::Fill => 3,
        }
    }

    /// The two bit encoding.
    #[verifier::when_used_as_spec(spec_value)]
    pub fn value(&self) -> (r: u8)
        ensures
            r == self.spec_value(),
    {
        match self {
            CycleType::SingleCycle => 0,
            CycleType::DualCycle => 1,
            CycleType::Copy => 2,
            CycleType::Fill => 3,
        }
    }
}

/// How coverage is written back.
#[derive(Clone, Copy, Debug, PartialEq, Eq, Structural)]
pub enum CoverageMode {
    Clamp, Wrap, Zap, Save,
}

impl CoverageMode {
    /// The two bit encoding.
    pub open spec fn spec_value(&self) -> u8 {
        match *self {
            CoverageMode::Clamp => 0,
            CoverageMode::Wrap => 1,
            CoverageMode::Zap => 2,
            CoverageMode::Save => 3,
        }
    }

    /// The two bit encoding.
    #[verifier::when_used_as_spec(spec_value)]
    pub fn value(&self) -> (r: u8)
        ensures
            r == self.spec_value(),
    {
        match self {
            CoverageMode::Clamp => 0,
            CoverageMode::Wrap => 1,
            CoverageMode::Zap => 2,
            CoverageMode::Save => 3,
        }
    }
}

/// A texture or image format.
#[derive(Clone, Copy, Debug, PartialEq, Eq, Structural)]
pub enum Format {
    RGBA, YUV, CI, IA, I,
}

impl Format {
    /// The three bit encoding.
    pub open spec fn spec_value(&self) -> u8 {
        match *self {
            Format::RGBA => 0,
            Format::YUV => 1,
            Format::CI => 2,
            Format::IA => 3,
            Format::I => 4,
        }
    }

    /// The three bit encoding.
    #[verifier::when_used_as_spec(spec_value)]
    pub fn value(&self) -> (r: u8)
        ensures
            r == self.spec_value(),
    {
        match self {
            Format::RGBA => 0,
            Format::YUV => 1,
            Format::CI => 2,
            Format::IA => 3,
            Format::I => 4,
        }
    }
}

/// The size of a pixel.
#[derive(Clone, Copy, Debug, PartialEq, Eq, Structural)]
pub enum PixelSize {
    Bits4, Bits8, Bits16, Bits32,
}

impl PixelSize {
    /// The two bit encoding.
    pub open spec fn spec_value(&self) -> u8 {
        match *self {
            PixelSize::Bits4 => 0,
            PixelSize::Bits8 => 1,
            PixelSize::Bits16 => 2,
            PixelSize::Bits32 => 3,
        }
    }

    /// The two bit encoding.
    #[verifier::when_used_as_spec(spec_value)]
    pub fn value(&self) -> (r: u8)
        ensures
            r == self.spec_value(),
    {
        match self {
            PixelSize::Bits4 => 0,
            PixelSize::Bits8 => 1,
            PixelSize::Bits16 => 2,
            PixelSize::Bits32 => 3,
        }
    }
}

/// A color input of the blender.
#[derive(Clone, Copy, Debug, PartialEq, Eq, Structural)]
pub enum PM {
    CombineColor, MemoryColor, BlendColor, FogColor,
}

impl PM {
    /// The two bit encoding.
    pub open spec fn spec_value(&self) -> u8 {
        match *self {
            PM::CombineColor => 0,
            PM::MemoryColor => 1,
            PM::BlendColor => 2,
            PM::FogColor => 3,
        }
    }

    /// The two bit encoding.
    #[verifier::when_used_as_spec(spec_value)]
    pub fn value(&self) -> (r: u8)
        ensures
            r == self.spec_value(),
    {
        match self {
            PM::CombineColor => 0,
            PM::MemoryColor => 1,
            PM::BlendColor => 2,
            PM::FogColor => 3,
        }
    }
}

/// The first alpha input of the blender.
#[derive(Clone, Copy, Debug, PartialEq, Eq, Structural)]
pub enum A {
    CombineAlpha, FogAlpha, ShadeAlpha, Zero,
}

impl A {
    /// The two bit encoding.
    pub open spec fn spec_value(&self) -> u8 {
        match *self {
            A::CombineAlpha => 0,
            A::FogAlpha => 1,
            A::ShadeAlpha => 2,
            A::Zero => 3,
        }
    }

    /// The two bit encoding.
    #[verifier::when_used_as_spec(spec_value)]
    pub fn value(&self) -> (r: u8)
        ensures
            r == self.spec_value(),
    {
        match self {
            A::CombineAlpha => 0,
            A::FogAlpha => 1,
            A::ShadeAlpha => 2,
            A::Zero => 3,
        }
    }
}

/// The second alpha input of the blender.
#[derive(Clone, Copy, Debug, PartialEq, Eq, Structural)]
pub enum B {
    InverseA, MemoryAlpha, One, Zero,
}

impl B {
    /// The two bit encoding.
    pub open spec fn spec_value(&self) -> u8 {
        match *self {
            B::InverseA => 0,
            B::MemoryAlpha => 1,
            B::One => 2,
            B::Zero => 3,
        }
    }

    /// The two bit encoding.
    #[verifier::when_used_as_spec(spec_value)]
    pub fn value(&self) -> (r: u8)
        ensures
            r == self.spec_value(),
    {
        match self {
            B::InverseA => 0,
            B::MemoryAlpha => 1,
            B::One => 2,
            B::Zero => 3,
        }
    }
}

/// The settings of one blender cycle: `(p * a + m * b) / (a + b)`.
#[derive(Clone, Copy, Debug, PartialEq, Eq, Structural)]
pub struct Blender {
    pub a: A,
    pub p: PM,
    pub b: B,
    pub m: PM,
}

impl Blender {
    pub fn new(a: A, p: PM, b: B, m: PM) -> (r: Self)
        ensures
            r == (Blender { a, p, b, m }),
    {
        Self { a, p, b, m }
    }
}

/// The blender bits of one cycle, before they are moved to their place: b at 16, m at 20, a at
/// 24 and p at 28.
pub open spec fn blender_bits(value: Blender) -> u64 {
    ((value.b.spec_value() as u64) << 16u64) | ((value.m.spec_value() as u64) << 20u64)
        | ((value.a.spec_value() as u64) << 24u64) | ((value.p.spec_value() as u64) << 28u64)
}

/// `raw` with the blender fields of one cycle replaced; cycle 0 sits two bits above cycle 1.
pub open spec fn with_blender_bits(raw: u64, value: Blender, extra_shift: u64) -> u64 {
    (raw & !(0b11_0011_0011_0011u64 << (16 + extra_shift) as u64)) | (blender_bits(value) << extra_shift)
}

/// The RDP's othermode word.
pub struct Othermode {
    raw_value: u64,
}

impl View for Othermode {
    type V = u64;

    closed spec fn view(&self) -> u64 {
        self.raw_value
    }
}

impl Othermode {
    /// Every setting 0.
    pub fn new() -> (r: Self)
        ensures
            r@ == 0,
    {
        Self { raw_value: 0 }
    }

    /// The word.
    pub fn raw_value(&self) -> (r: u64)
        ensures
            r == self@,
    {
        self.raw_value
    }

    /// The word with the cycle type (bits 52 and 53) replaced.
    pub fn with_cycle_type(&self, value: CycleType) -> (r: Self)
        ensures
            r@ == set_field64(self@, 52, 2, value.spec_value() as u64),
    {
        proof {
            crate::bits::lemma_mask64_values();
        }
        Self { raw_value: with_field64(self.raw_value, 52, 2, value.value() as u64) }
    }

    /// The word with the coverage mode (bits 8 and 9) replaced.
    pub fn with_coverage_mode(&self, value: CoverageMode) -> (r: Self)
        ensures
            r@ == set_field64(self@, 8, 2, value.spec_value() as u64),
    {
        proof {
            crate::bits::lemma_mask64_values();
        }
        Self { raw_value: with_field64(self.raw_value, 8, 2, value.value() as u64) }
    }

    fn with_blender(&self, value: Blender, extra_shift: u64) -> (r: Self)
        requires
            extra_shift <= 2,
        ensures
            r@ == with_blender_bits(self@, value, extra_shift),
    {
        let mask: u64 = !(0b11_0011_0011_0011u64 << (16 + extra_shift));
        let bits = (((value.b.value() as u64) << 16u64) | ((value.m.value() as u64) << 20u64)
            | ((value.a.value() as u64) << 24u64) | ((value.p.value() as u64) << 28u64)) << extra_shift;
        Self { raw_value: self.raw_value & mask | bits }
    }

    /// The word with the blender settings of the first cycle replaced.
    pub fn with_blender_0(&self, value: Blender) -> (r: Self)
        ensures
            r@ == with_blender_bits(self@, value, 2),
    {
        self.with_blender(value, 2)
    }

    /// The word with the blender settings of the second cycle replaced.
    pub fn with_blender_1(&self, value: Blender) -> (r: Self)
        ensures
            r@ == with_blender_bits(self@, value, 0),
    {
        self.with_blender(value, 0)
    }
}

/// The two blender cycles, the cycle type and the coverage mode occupy separate bits: setting the
/// blenders of both cycles gives the same word in either order, and setting a blender keeps the
/// cycle type and the coverage mode.
pub proof fn lemma_blender_fields_are_separate(raw: u64, value0: Blender, value1: Blender)
    ensures
        with_blender_bits(with_blender_bits(raw, value0, 2), value1, 0)
            == with_blender_bits(with_blender_bits(raw, value1, 0), value0, 2),
        (with_blender_bits(raw, value0, 2) >> 52u64) & 3u64 == (raw >> 52u64) & 3u64,
        (with_blender_bits(raw, value1, 0) >> 52u64) & 3u64 == (raw >> 52u64) & 3u64,
        (with_blender_bits(raw, value0, 2) >> 8u64) & 3u64 == (raw >> 8u64) & 3u64,
        (with_blender_bits(raw, value1, 0) >> 8u64) & 3u64 == (raw >> 8u64) & 3u64,
{
    let v0 = blender_bits(value0);
    let v1 = blender_bits(value1);
    let (a0, b0, m0, p0) = (value0.a.spec_value() as u64, value0.b.spec_value() as u64, value0.m.spec_value() as u64, value0.p.spec_value() as u64);
    let (a1, b1, m1, p1) = (value1.a.spec_value() as u64, value1.b.spec_value() as u64, value1.m.spec_value() as u64, value1.p.spec_value() as u64);
    assert({
        let w0 = (b0 << 16u64) | (m0 << 20u64) | (a0 << 24u64) | (p0 << 28u64);
        let w1 = (b1 << 16u64) | (m1 << 20u64) | (a1 << 24u64) | (p1 << 28u64);
        let m2 = !(0b11_0011_0011_0011u64 << 18u64);
        let m0_ = !(0b11_0011_0011_0011u64 << 16u64);
        &&& (((raw & m2) | (w0 << 2u64)) & m0_) | (w1 << 0u64) == (((raw & m0_) | (w1 << 0u64)) & m2) | (w0 << 2u64)
        &&& ((((raw & m2) | (w0 << 2u64)) >> 52u64) & 3u64) == (raw >> 52u64) & 3u64
        &&& ((((raw & m0_) | (w1 << 0u64)) >> 52u64) & 3u64) == (raw >> 52u64) & 3u64
        &&& ((((raw & m2) | (w0 << 2u64)) >> 8u64) & 3u64) == (raw >> 8u64) & 3u64
        &&& ((((raw & m0_) | (w1 << 0u64)) >> 8u64) & 3u64) == (raw >> 8u64) & 3u64
    }) by (bit_vector)
        requires
            a0 < 4, b0 < 4, m0 < 4, p0 < 4,
            a1 < 4, b1 < 4, m1 < 4, p1 < 4;
}

/// The cycle types have their two bit encodings: one cycle 0, two cycles 1, copy 2, fill 3.
pub proof fn lemma_cycle_type_numbers()
    ensures
        CycleType::SingleCycle.spec_value() == 0,
        CycleType::DualCycle.spec_value() == 1,
        CycleType::Copy.spec_value() == 2,
        CycleType::Fill.spec_value() == 3,
{
}

/// The coverage modes have their two bit encodings: clamp 0, wrap 1, zap 2, save 3.
pub proof fn lemma_coverage_mode_numbers()
    ensures
        CoverageMode::Clamp.spec_value() == 0,
        CoverageMode::Wrap.spec_value() == 1,
        CoverageMode::Zap.spec_value() == 2,
        CoverageMode::Save.spec_value() == 3,
{
}

/// The texture formats have their three bit encodings: RGBA 0, YUV 1, CI 2, IA 3, I 4.
pub proof fn lemma_format_numbers()
    ensures
        Format::RGBA.spec_value() == 0,
        Format::YUV.spec_value() == 1,
        Format::CI.spec_value() == 2,
        Format::IA.spec_value() == 3,
        Format::I.spec_value() == 4,
{
}

/// The pixel sizes have their two bit encodings: 4 bits 0, 8 bits 1, 16 bits 2, 32 bits 3.
pub proof fn lemma_pixel_size_numbers()
    ensures
        PixelSize::Bits4.spec_value() == 0,
        PixelSize::Bits8.spec_value() == 1,
        PixelSize::Bits16.spec_value() == 2,
        PixelSize::Bits32.spec_value() == 3,
{
}

/// The blender's color input choices have their two bit encodings: combined color 0, memory color 1, blend color 2, fog color 3.
pub proof fn lemma_blender_pm_numbers()
    ensures
        PM::CombineColor.spec_value() == 0,
        PM::MemoryColor.spec_value() == 1,
        PM::BlendColor.spec_value() == 2,
        PM::FogColor.spec_value() == 3,
{
}

/// The blender's first input choices have their two bit encodings: combined alpha 0, fog alpha 1, shade alpha 2, zero 3.
pub proof fn lemma_blender_a_numbers()
    ensures
        A::CombineAlpha.spec_value() == 0,
        A::FogAlpha.spec_value() == 1,
        A::ShadeAlpha.spec_value() == 2,
        A::Zero.spec_value() == 3,
{
}

/// The blender's second input choices have their two bit encodings: one minus A 0, memory alpha 1, one 2, zero 3.
pub proof fn lemma_blender_b_numbers()
    ensures
        B::InverseA.spec_value() == 0,
        B::MemoryAlpha.spec_value() == 1,
        B::One.spec_value() == 2,
        B::Zero.spec_value() == 3,
{
}

/// Where the blender settings of each cycle sit in the othermode word: for cycle 1, b in bits 16
/// and 17, m in 20 and 21, a in 24 and 25 and p in 28 and 29; for cycle 0 each two bits higher.
/// Every other bit of the word keeps its value.
pub proof fn lemma_blender_field_positions(raw: u64, value: Blender)
    ensures
        field64(with_blender_bits(raw, value, 0), 16, 2) == value.b.spec_value() as u64,
        field64(with_blender_bits(raw, value, 0), 20, 2) == value.m.spec_value() as u64,
        field64(with_blender_bits(raw, value, 0), 24, 2) == value.a.spec_value() as u64,
        field64(with_blender_bits(raw, value, 0), 28, 2) == value.p.spec_value() as u64,
        with_blender_bits(raw, value, 0) & !0x3333_0000u64 == raw & !0x3333_0000u64,
        field64(with_blender_bits(raw, value, 2), 18, 2) == value.b.spec_value() as u64,
        field64(with_blender_bits(raw, value, 2), 22, 2) == value.m.spec_value() as u64,
        field64(with_blender_bits(raw, value, 2), 26, 2) == value.a.spec_value() as u64,
        field64(with_blender_bits(raw, value, 2), 30, 2) == value.p.spec_value() as u64,
        with_blender_bits(raw, value, 2) & !0xCCCC_0000u64 == raw & !0xCCCC_0000u64,
{
    let b = value.b.spec_value() as u64;
    let m = value.m.spec_value() as u64;
    let a = value.a.spec_value() as u64;
    let p = value.p.spec_value() as u64;
    assert(b < 4 && m < 4 && a < 4 && p < 4);
    let w1 = with_blender_bits(raw, value, 0);
    let w0 = with_blender_bits(raw, value, 2);
    assert(w1 == (raw & !(0b11_0011_0011_0011u64 << 16u64)) | ((b << 16u64) | (m << 20u64) | (a << 24u64) | (p << 28u64)) << 0u64);
    assert(w0 == (raw & !(0b11_0011_0011_0011u64 << 18u64)) | ((b << 16u64) | (m << 20u64) | (a << 24u64) | (p << 28u64)) << 2u64);
    assert({
        &&& field64(w1, 16, 2) == b
        &&& field64(w1, 20, 2) == m
        &&& field64(w1, 24, 2) == a
        &&& field64(w1, 28, 2) == p
        &&& w1 & !0x3333_0000u64 == raw & !0x3333_0000u64
        &&& field64(w0, 18, 2) == b
        &&& field64(w0, 22, 2) == m
        &&& field64(w0, 26, 2) == a
        &&& field64(w0, 30, 2) == p
        &&& w0 & !0xCCCC_0000u64 == raw & !0xCCCC_0000u64
    }) by (bit_vector)
        requires
            b < 4,
            m < 4,
            a < 4,
            p < 4,
            w1 == (raw & !(0b11_0011_0011_0011u64 << 16u64)) | ((b << 16u64) | (m << 20u64) | (a << 24u64) | (p << 28u64)) << 0u64,
            w0 == (raw & !(0b11_0011_0011_0011u64 << 18u64)) | ((b << 16u64) | (m << 20u64) | (a << 24u64) | (p << 28u64)) << 2u64;
}

} // verus!
