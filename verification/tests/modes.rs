use n64_systemtest::graphics::{Extent2D, Offset2D};
use n64_systemtest::rdp::modes::{Blender, CoverageMode, CycleType, Format, Othermode, PixelSize, A, B, PM};

#[test]
fn othermode_cycle_type_and_coverage() {
    let m = Othermode::new().with_cycle_type(CycleType::Fill).with_coverage_mode(CoverageMode::Save);
    assert_eq!(m.raw_value(), 0x0030_0000_0000_0300);
    let m = m.with_cycle_type(CycleType::DualCycle).with_coverage_mode(CoverageMode::Wrap);
    assert_eq!(m.raw_value(), 0x0010_0000_0000_0100);
    assert_eq!(Othermode::new().raw_value(), 0);
}

#[test]
fn othermode_blenders_use_separate_bits() {
    let blender = || Blender::new(A::ShadeAlpha, PM::FogColor, B::One, PM::MemoryColor);
    assert_eq!(Othermode::new().with_blender_0(blender()).raw_value(), 0xC848_0000);
    assert_eq!(Othermode::new().with_blender_1(blender()).raw_value(), 0x3212_0000);
    let both = Othermode::new().with_blender_0(blender()).with_blender_1(blender());
    assert_eq!(both.raw_value(), 0xFA5A_0000);
    let replaced = both.with_blender_0(Blender::new(A::CombineAlpha, PM::CombineColor, B::InverseA, PM::CombineColor));
    assert_eq!(replaced.raw_value(), 0x3212_0000);
}

#[test]
fn mode_encodings() {
    assert_eq!(Format::I.value(), 4);
    assert_eq!(Format::IA.value(), 3);
    assert_eq!(PixelSize::Bits32.value(), 3);
    assert_eq!(PM::BlendColor.value(), 2);
    assert_eq!(A::Zero.value(), 3);
    assert_eq!(B::MemoryAlpha.value(), 1);
    assert_eq!(CycleType::Copy.value(), 2);
    assert_eq!(CoverageMode::Zap.value(), 2);
}

#[test]
fn extents_and_offsets() {
    let e = Extent2D { width: 320, height: 240 };
    let o = Offset2D { x: 1, y: 2 };
    assert_eq!(e, Extent2D { width: 320, height: 240 });
    assert_ne!(o, Offset2D { x: 2, y: 1 });
}
