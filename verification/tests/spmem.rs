use n64_systemtest::math::vector::Vector;
use n64_systemtest::rsp::spmem::SPMEM;

#[test]
fn new_spmem_is_zero() {
    let mem = SPMEM::new();
    assert!(mem.words().iter().all(|w| *w == 0));
    assert_eq!(mem.words().len(), 2048);
}

#[test]
fn write_then_read_word() {
    let mut mem = SPMEM::new();
    mem.write(0x1004, 0xDEAD_BEEF);
    assert_eq!(mem.read(0x1004), 0xDEAD_BEEF);
    assert_eq!(mem.words()[0x401], 0xDEAD_BEEF);
    assert_eq!(mem.read(0x1000), 0);
    assert_eq!(mem.read(0x1008), 0);
}

#[test]
fn vector16_is_packed_big_endian() {
    let mut mem = SPMEM::new();
    mem.write_vector16_into_dmem(0x20, &[0x0102, 0x0304, 0x0506, 0x0708, 0x090A, 0x0B0C, 0x0D0E, 0x0F10]);
    assert_eq!(mem.read(0x20), 0x0102_0304);
    assert_eq!(mem.read(0x24), 0x0506_0708);
    assert_eq!(mem.read(0x28), 0x090A_0B0C);
    assert_eq!(mem.read(0x2C), 0x0D0E_0F10);
    assert_eq!(mem.read_vector16_from_dmem(0x20), [0x0102, 0x0304, 0x0506, 0x0708, 0x090A, 0x0B0C, 0x0D0E, 0x0F10]);
    assert_eq!(mem.read_vector8_from_dmem(0x20), [1, 2, 3, 4, 5, 6, 7, 8, 9, 10, 11, 12, 13, 14, 15, 16]);
}

#[test]
fn vector_write_wraps_at_end_of_dmem() {
    let mut mem = SPMEM::new();
    mem.write_vector16_into_dmem(0xFF8, &[1, 2, 3, 4, 5, 6, 7, 8]);
    assert_eq!(mem.read(0xFF8), 0x0001_0002);
    assert_eq!(mem.read(0xFFC), 0x0003_0004);
    assert_eq!(mem.read(0x000), 0x0005_0006);
    assert_eq!(mem.read(0x004), 0x0007_0008);
    // IMEM is left alone
    assert_eq!(mem.read(0x1000), 0);
    assert_eq!(mem.read(0x1004), 0);
    assert_eq!(mem.read_vector16_from_dmem(0xFF8), [1, 2, 3, 4, 5, 6, 7, 8]);
}

#[test]
fn dmem_address_ignores_high_bits() {
    let mut mem = SPMEM::new();
    mem.write_vector16_into_dmem(0x1010, &[9, 9, 9, 9, 9, 9, 9, 9]);
    assert_eq!(mem.read(0x010), 0x0009_0009);
    assert_eq!(mem.read(0x1010), 0);
}

#[test]
fn vector8_write_packs_four_bytes_per_word() {
    let mut mem = SPMEM::new();
    let bytes: [u8; 8] = [0xAA, 0xBB, 0xCC, 0xDD, 0x11, 0x22, 0x33, 0x44];
    mem.write_vector8_into_dmem(0x100, &bytes);
    assert_eq!(mem.read(0x100), 0xAABB_CCDD);
    assert_eq!(mem.read(0x104), 0x1122_3344);
    assert_eq!(mem.read(0x108), 0);
}

#[test]
fn vector_round_trips_through_dmem() {
    let mut mem = SPMEM::new();
    let v = Vector::new_with_u32_elements(0x1111_2222, 0x3333_4444, 0x5555_6666, 0x7777_8888);
    mem.write_vector_into_dmem(0xFFC, &v);
    assert_eq!(mem.read(0xFFC), 0x1111_2222);
    assert_eq!(mem.read(0x000), 0x3333_4444);
    let back = mem.read_vector_from_dmem(0xFFC);
    assert!(back.equals(&v));
}

#[test]
fn read_from_dmem_or_imem_does_not_wrap() {
    let mut mem = SPMEM::new();
    mem.write(0xFF8, 0x0001_0002);
    mem.write(0xFFC, 0x0003_0004);
    mem.write(0x1000, 0x0005_0006);
    mem.write(0x1004, 0x0007_0008);
    mem.write(0x0000, 0xFFFF_FFFF);
    assert_eq!(mem.read_vector16_from_dmem_or_imem(0xFF8), [1, 2, 3, 4, 5, 6, 7, 8]);
    assert_eq!(mem.read_vector16_from_dmem(0xFF8), [1, 2, 3, 4, 0xFFFF, 0xFFFF, 0, 0]);
}

#[test]
fn vector_survives_unrelated_writes() {
    let mut mem = SPMEM::new();
    mem.write_vector16_into_dmem(0xFF8, &[1, 2, 3, 4, 5, 6, 7, 8]);
    // words 0xFF8, 0xFFC, 0x000, 0x004 hold the vector; other stores leave it alone
    mem.write(0x008, 0xAAAA_AAAA);
    mem.write(0xFF4, 0xBBBB_BBBB);
    mem.write(0x1FF8, 0xCCCC_CCCC);
    mem.write(0x1000, 0xDDDD_DDDD);
    assert_eq!(mem.read_vector16_from_dmem(0xFF8), [1, 2, 3, 4, 5, 6, 7, 8]);
    assert_eq!(mem.read_vector8_from_dmem(0xFF8), [0, 1, 0, 2, 0, 3, 0, 4, 0, 5, 0, 6, 0, 7, 0, 8]);
    // a store into one of them is seen
    mem.write(0x004, 0x0009_000A);
    assert_eq!(mem.read_vector16_from_dmem(0xFF8), [1, 2, 3, 4, 5, 6, 9, 10]);
}
