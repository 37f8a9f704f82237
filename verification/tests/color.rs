use n64_systemtest::graphics::color::{Color, ARGB8888, RGBA5551};

#[test]
fn rgba5551_named_colors() {
    assert_eq!(RGBA5551::WHITE().raw_value(), 0xFFFE);
    assert_eq!(RGBA5551::BLACK().raw_value(), 0x0000);
    assert_eq!(RGBA5551::RED().raw_value(), 0xF800);
    assert_eq!(RGBA5551::GREEN().raw_value(), 0x07C0);
    assert_eq!(RGBA5551::BLUE().raw_value(), 0x003E);
}

#[test]
fn argb8888_named_colors() {
    assert_eq!(ARGB8888::WHITE().raw_value(), 0x00FF_FFFF);
    assert_eq!(ARGB8888::BLACK().raw_value(), 0);
    assert_eq!(ARGB8888::RED().raw_value(), 0x00FF_0000);
    assert_eq!(ARGB8888::GREEN().raw_value(), 0x0000_FF00);
    assert_eq!(ARGB8888::BLUE().raw_value(), 0x0000_00FF);
}

#[test]
fn rgba5551_channels() {
    let c = RGBA5551::new(1, 2, 3, true);
    assert_eq!(c.raw_value(), 0x0887);
    assert_eq!((c.red(), c.green(), c.blue(), c.alpha()), (1, 2, 3, true));
    let c = c.with_green(31).with_alpha(false);
    assert_eq!(c.raw_value(), 0x0FC6);
}

#[test]
fn argb8888_channels() {
    let c = ARGB8888::new(0x12, 0x34, 0x56, 0x78);
    assert_eq!(c.raw_value(), 0x7812_3456);
    assert_eq!((c.alpha(), c.red(), c.green(), c.blue()), (0x78, 0x12, 0x34, 0x56));
    assert_eq!(c.with_blue(0).raw_value(), 0x7812_3400);
}

#[test]
fn narrowing_keeps_top_bits() {
    let c = RGBA5551::from_argb8888(ARGB8888::new_with_raw_value(0x80C0_4020));
    assert_eq!(c.raw_value(), 0xC209);
    let c: RGBA5551 = ARGB8888::new_with_raw_value(0x7FFF_FFFF).into();
    assert_eq!(c.raw_value(), 0xFFFE);
}

#[test]
fn widening_repeats_top_bits() {
    let c: ARGB8888 = RGBA5551::new(1, 2, 3, true).into();
    assert_eq!(c.raw_value(), 0xFF08_1018);
    let c: ARGB8888 = RGBA5551::WHITE().into();
    assert_eq!(c.raw_value(), 0x00FF_FFFF);
    let c: ARGB8888 = RGBA5551::new_with_raw_value(0x0001).into();
    assert_eq!(c.raw_value(), 0xFF00_0000);
}

#[test]
fn rgba5551_survives_a_round_trip() {
    for v in [0u16, 1, 0x0887, 0x1234, 0xFFFE, 0xFFFF, 0x8001] {
        let wide: ARGB8888 = RGBA5551::new_with_raw_value(v).into();
        let back: RGBA5551 = wide.into();
        assert_eq!(back.raw_value(), v);
    }
}

#[test]
fn color_trait_alpha() {
    let c = Color::with_alpha(&RGBA5551::RED(), 200);
    assert_eq!(c.raw_value(), 0xF801);
    let c = Color::with_alpha(&RGBA5551::RED(), 127);
    assert_eq!(c.raw_value(), 0xF800);
    let c = Color::with_alpha(&ARGB8888::RED(), 0x42);
    assert_eq!(c.raw_value(), 0x42FF_0000);
}
