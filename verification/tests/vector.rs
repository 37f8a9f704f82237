use n64_systemtest::math::vector::Vector;
use n64_systemtest::rsp::rsp_assembler::Element;

fn lanes(v: &Vector) -> [u16; 8] {
    let mut r = [0u16; 8];
    for i in 0..8 {
        r[i] = v.get16(i);
    }
    r
}

#[test]
fn new_vector_is_zero() {
    let v = Vector::new();
    assert_eq!(lanes(&v), [0; 8]);
    assert!(v.equals(&Vector::default()));
    assert!(v == Vector::default());
}

#[test]
fn broadcast_fills_every_lane() {
    let v = Vector::new_with_broadcast_16(0xBEEF);
    assert_eq!(lanes(&v), [0xBEEF; 8]);
    assert_eq!(v.get32(2), 0xBEEF_BEEF);
}

#[test]
fn u32_elements_are_big_endian_pairs_of_lanes() {
    let v = Vector::new_with_u32_elements(0x0011_2233, 0x4455_6677, 0x8899_AABB, 0xCCDD_EEFF);
    assert_eq!(lanes(&v), [0x0011, 0x2233, 0x4455, 0x6677, 0x8899, 0xAABB, 0xCCDD, 0xEEFF]);
    assert_eq!(v.get32(0), 0x0011_2233);
    assert_eq!(v.get32(3), 0xCCDD_EEFF);
    assert_eq!(v.get8(0), 0x00);
    assert_eq!(v.get8(1), 0x11);
    assert_eq!(v.get8(15), 0xFF);
}

#[test]
fn from_u8_pairs_bytes_high_first() {
    let mut bytes = [0u8; 16];
    for i in 0..16 {
        bytes[i] = i as u8;
    }
    let v = Vector::from_u8(bytes);
    assert_eq!(lanes(&v), [0x0001, 0x0203, 0x0405, 0x0607, 0x0809, 0x0A0B, 0x0C0D, 0x0E0F]);
    for i in 0..16 {
        assert_eq!(v.get8(i), i as u8);
    }
}

#[test]
fn set16_and_set8_change_one_place() {
    let mut v = Vector::from_u16([1, 2, 3, 4, 5, 6, 7, 8]);
    v.set16(3, 0x1234);
    assert_eq!(lanes(&v), [1, 2, 3, 0x1234, 5, 6, 7, 8]);
    v.set8(6, 0xAB);
    assert_eq!(v.get16(3), 0xAB34);
    v.set8(7, 0xCD);
    assert_eq!(v.get16(3), 0xABCD);
    assert_eq!(v.get8(6), 0xAB);
    assert_eq!(lanes(&v), [1, 2, 3, 0xABCD, 5, 6, 7, 8]);
}

#[test]
fn copy_with_broadcast_16_repeats_one_lane() {
    let v = Vector::from_u16([10, 11, 12, 13, 14, 15, 16, 17]);
    assert_eq!(lanes(&v.copy_with_broadcast_16(5)), [15; 8]);
    assert_eq!(v.copy_with_broadcast_16(0).get32(1), 0x000A_000A);
}

#[test]
fn element_specifier_selects_lanes() {
    let v = Vector::from_u16([10, 11, 12, 13, 14, 15, 16, 17]);
    assert_eq!(lanes(&v.copy_with_element_specifier_applied(Element::All)), [10, 11, 12, 13, 14, 15, 16, 17]);
    assert_eq!(lanes(&v.copy_with_element_specifier_applied(Element::All1)), [10, 11, 12, 13, 14, 15, 16, 17]);
    assert_eq!(lanes(&v.copy_with_element_specifier_applied(Element::Q0)), [10, 10, 12, 12, 14, 14, 16, 16]);
    assert_eq!(lanes(&v.copy_with_element_specifier_applied(Element::Q1)), [11, 11, 13, 13, 15, 15, 17, 17]);
    assert_eq!(lanes(&v.copy_with_element_specifier_applied(Element::H2)), [12, 12, 12, 12, 16, 16, 16, 16]);
    assert_eq!(lanes(&v.copy_with_element_specifier_applied(Element::_6)), [16; 8]);
}

#[test]
fn effective_element_index_table() {
    assert_eq!(Element::Q1.get_effective_element_index(2), 3);
    assert_eq!(Element::H3.get_effective_element_index(4), 7);
    assert_eq!(Element::H1.get_effective_element_index(3), 1);
    assert_eq!(Element::_7.get_effective_element_index(0), 7);
    assert_eq!(Element::All.get_effective_element_index(6), 6);
}

#[test]
fn equality_compares_all_lanes() {
    let a = Vector::from_u16([1, 2, 3, 4, 5, 6, 7, 8]);
    let mut b = a;
    assert!(a.equals(&b));
    assert!(a == b);
    b.set8(15, 9);
    assert!(!a.equals(&b));
    assert!(a != b);
}

#[test]
fn element_steps() {
    assert_eq!(Element::steps_between(&Element::Q0, &Element::_2), Some(8));
    assert_eq!(Element::steps_between(&Element::_2, &Element::Q0), None);
    assert_eq!(Element::steps_between(&Element::H1, &Element::H1), None);
    assert_eq!(Element::forward_checked(Element::H3, 1), Some(Element::_0));
    assert_eq!(Element::forward_checked(Element::_7, 1), None);
    assert_eq!(Element::backward_checked(Element::_0, 8), Some(Element::All));
}
