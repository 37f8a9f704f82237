use n64_systemtest::assembler::{Assembler, Opcode, RegimmOpcode, SpecialOpcode};

#[test]
fn make_loadstore_encodes_lw() {
    // LW $t1, 0x10($a0)
    assert_eq!(Assembler::make_loadstore(Opcode::LW, 9, 0x10, 4), 0x8C89_0010);
}

#[test]
fn make_loadstore_encodes_sd_with_high_offset() {
    // SD $ra, -8($sp)
    assert_eq!(Assembler::make_loadstore(Opcode::SD, 31, 0xFFF8, 29), 0xFFBF_FFF8);
}

#[test]
fn make_special_encodes_add() {
    // ADD $3, $1, $2
    assert_eq!(Assembler::make_special(SpecialOpcode::ADD, 0, 3, 1, 2), 0x0022_1820);
}

#[test]
fn make_special_encodes_shift_amount() {
    // DSLL32 $4, $5, 31
    assert_eq!(Assembler::make_special(SpecialOpcode::DSLL32, 31, 4, 0, 5), 0x0005_27FC);
}

#[test]
fn make_regimm_trap_encodes_teqi() {
    // TEQI $5, 7
    assert_eq!(Assembler::make_regimm_trap(RegimmOpcode::TEQI, 5, 7), 0x04AC_0007);
}

#[test]
fn opcode_values() {
    assert_eq!(Opcode::SPECIAL.value(), 0);
    assert_eq!(Opcode::SD.value(), 63);
    assert_eq!(SpecialOpcode::DSRA32.value(), 63);
    assert_eq!(RegimmOpcode::BGEZALL.value(), 19);
}
