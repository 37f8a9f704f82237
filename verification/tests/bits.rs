use n64_systemtest::bits::{get_field16, get_field32, get_field64, with_field16, with_field32, with_field64};

#[test]
fn get_field_reads_bits() {
    assert_eq!(get_field16(0xABCD, 4, 8), 0xBC);
    assert_eq!(get_field32(0xDEAD_BEEF, 16, 16), 0xDEAD);
    assert_eq!(get_field32(0xDEAD_BEEF, 0, 31), 0x5EAD_BEEF);
    assert_eq!(get_field64(0x0123_4567_89AB_CDEF, 60, 4), 0x0);
    assert_eq!(get_field64(0x0123_4567_89AB_CDEF, 32, 12), 0x567);
    assert_eq!(get_field64(u64::MAX, 0, 63), u64::MAX >> 1);
}

#[test]
fn with_field_replaces_bits() {
    assert_eq!(with_field16(0xABCD, 4, 8, 0x12), 0xA12D);
    assert_eq!(with_field32(0xFFFF_FFFF, 8, 4, 0), 0xFFFF_F0FF);
    assert_eq!(with_field64(0, 62, 2, 3), 0xC000_0000_0000_0000);
    assert_eq!(with_field64(u64::MAX, 0, 63, 5), 0x8000_0000_0000_0005);
}

#[test]
fn write_then_read_field() {
    let raw = with_field32(0x1234_5678, 12, 9, 0x1AB);
    assert_eq!(get_field32(raw, 12, 9), 0x1AB);
    assert_eq!(get_field32(raw, 0, 12), 0x678);
    assert_eq!(get_field32(raw, 21, 11), 0x1234_5678 >> 21);
}
