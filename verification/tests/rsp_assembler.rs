use n64_systemtest::rsp::rsp_assembler::{
    CP0Register, CP2FlagsRegister, Element, RSMAssemblerJumpTarget, RSPAssembler, VSARAccumulator, E, GPR, VR,
};
use n64_systemtest::rsp::rsp_macros::assemble_set_accumulator_to;

fn words(code: &RSPAssembler) -> Vec<u32> {
    code.writer().writes().iter().map(|(_, w)| *w).collect()
}

fn offsets(code: &RSPAssembler) -> Vec<usize> {
    code.writer().writes().iter().map(|(o, _)| *o).collect()
}

#[test]
fn new_assembler_starts_at_offset() {
    let code = RSPAssembler::new(0x1000);
    assert_eq!(code.writer().offset(), 0x1000);
    assert!(code.writer().writes().is_empty());
    assert_eq!(RSPAssembler::new(0x2003).writer().offset(), 0);
    assert_eq!(RSPAssembler::new(0x1235).writer().offset(), 0x1234);
}

#[test]
fn addi_and_nop_encode() {
    let mut code = RSPAssembler::new(0x1000);
    code.write_addi(GPR::T0, GPR::R0, 5);
    code.write_nop();
    assert_eq!(words(&code), vec![0x2008_0005, 0]);
    assert_eq!(offsets(&code), vec![0x1000, 0x1004]);
    assert_eq!(code.writer().offset(), 0x1008);
}

#[test]
fn negative_immediates_are_sign_bits() {
    let mut code = RSPAssembler::new(0);
    code.write_addiu(GPR::SP, GPR::SP, -16);
    code.write_beq(GPR::T0, GPR::T1, -1);
    assert_eq!(words(&code), vec![0x27BD_FFF0, 0x1128_FFFF]);
}

#[test]
fn li_uses_one_or_two_instructions() {
    let mut code = RSPAssembler::new(0);
    code.write_li(GPR::T0, 0x1234);
    assert_eq!(words(&code), vec![0x3408_1234]);
    let mut code = RSPAssembler::new(0);
    code.write_li(GPR::T0, 0x1234_0000);
    assert_eq!(words(&code), vec![0x3C08_1234]);
    let mut code = RSPAssembler::new(0);
    code.write_li(GPR::T0, 0x1234_5678);
    assert_eq!(words(&code), vec![0x3C08_1234, 0x3508_5678]);
    let mut code = RSPAssembler::new(0);
    code.write_li(GPR::A0, 0);
    assert_eq!(words(&code), vec![0x3404_0000]);
}

#[test]
fn jumps_encode_word_targets() {
    let mut code = RSPAssembler::new(0);
    code.write_j(0x100);
    code.write_jal(0x1FFC);
    assert_eq!(words(&code), vec![0x0800_0040, 0x0C00_07FF]);
}

#[test]
fn branches_encode() {
    let mut code = RSPAssembler::new(0);
    code.write_bne(GPR::T0, GPR::T1, 3);
    code.write_blez(GPR::A0, 2);
    code.write_bgtz(GPR::A0, -2);
    code.write_bltz(GPR::T0, 2);
    code.write_bgez(GPR::T0, 2);
    code.write_bltzal(GPR::T0, 2);
    code.write_bgezal(GPR::T0, 2);
    assert_eq!(
        words(&code),
        vec![0x1528_0003, 0x1880_0002, 0x1C80_FFFE, 0x0500_0002, 0x0501_0002, 0x0510_0002, 0x0511_0002]
    );
}

#[test]
fn bgtz_backwards_reaches_target() {
    let mut code = RSPAssembler::new(0x1000);
    let target = code.get_jump_target();
    code.write_nop();
    code.write_bgtz_backwards(GPR::T0, &target);
    let w = words(&code)[1];
    assert_eq!(w, 0x1D00_03FE);
    // The RSP branches to the delay slot's address plus four times the offset, modulo 4 KiB.
    let imm = (w & 0xFFFF) as u16;
    let branch_at: u16 = 0x1004;
    assert_eq!(branch_at.wrapping_add(4).wrapping_add(imm.wrapping_mul(4)) & 0xFFF, 0x1000 & 0xFFF);
}

#[test]
fn bgtz_backwards_to_itself_is_minus_one() {
    let mut code = RSPAssembler::new(0x1010);
    let target = RSMAssemblerJumpTarget::new(0x1010);
    code.write_bgtz_backwards(GPR::T0, &target);
    assert_eq!(words(&code), vec![0x1D00_FFFF]);
}

#[test]
fn cop0_moves_encode() {
    let mut code = RSPAssembler::new(0);
    code.write_mfc0(CP0Register::SPStatus, GPR::T0);
    code.write_mtc0(CP0Register::DPClock, GPR::T1);
    assert_eq!(words(&code), vec![0x4008_2000, 0x4089_6000]);
}

#[test]
fn cop2_moves_encode() {
    let mut code = RSPAssembler::new(0);
    code.write_ctc2(CP2FlagsRegister::VCC, GPR::T0);
    code.write_cfc2(CP2FlagsRegister::VCO, GPR::T1);
    code.write_mtc2(VR::V1, GPR::T0, E::_2);
    code.write_mfc2(VR::V31, GPR::RA, E::_15);
    code.write_ctc2_any_index(31, GPR::R0);
    code.write_cfc2_any_index(2, GPR::R0);
    assert_eq!(words(&code), vec![0x48C8_0800, 0x4849_0000, 0x4888_0900, 0x481F_FF80, 0x48C0_F800, 0x4840_1000]);
}

#[test]
fn special_instructions_encode() {
    let mut code = RSPAssembler::new(0);
    code.write_sll(GPR::T0, GPR::T1, 3);
    code.write_add(GPR::T0, GPR::T1, GPR::T2);
    code.write_or(GPR::T0, GPR::T1, GPR::T2);
    code.write_jr(GPR::RA);
    code.write_break();
    code.write_jalr(GPR::RA, GPR::T0);
    code.write_srav(GPR::T0, GPR::T1, GPR::T2);
    assert_eq!(words(&code), vec![0x0009_40C0, 0x0149_4020, 0x012A_4025, 0x03E0_0008, 0x0000_000D, 0x0100_F809, 0x0149_4007]);
}

#[test]
fn all_special_encoders_use_their_function_codes() {
    let mut code = RSPAssembler::new(0);
    code.write_sra(GPR::R0, GPR::R0, 0);
    code.write_srl(GPR::R0, GPR::R0, 0);
    code.write_sllv(GPR::R0, GPR::R0, GPR::R0);
    code.write_srlv(GPR::R0, GPR::R0, GPR::R0);
    code.write_addu(GPR::R0, GPR::R0, GPR::R0);
    code.write_sub(GPR::R0, GPR::R0, GPR::R0);
    code.write_subu(GPR::R0, GPR::R0, GPR::R0);
    code.write_and(GPR::R0, GPR::R0, GPR::R0);
    code.write_nor(GPR::R0, GPR::R0, GPR::R0);
    code.write_xor(GPR::R0, GPR::R0, GPR::R0);
    code.write_slt(GPR::R0, GPR::R0, GPR::R0);
    code.write_sltu(GPR::R0, GPR::R0, GPR::R0);
    assert_eq!(words(&code), vec![3, 2, 4, 6, 33, 34, 35, 36, 39, 38, 42, 43]);
}

#[test]
fn immediate_encoders_use_their_opcodes() {
    let mut code = RSPAssembler::new(0);
    code.write_andi(GPR::R0, GPR::R0, 0);
    code.write_lb(GPR::R0, GPR::R0, 0);
    code.write_lbu(GPR::R0, GPR::R0, 0);
    code.write_lh(GPR::R0, GPR::R0, 0);
    code.write_lhu(GPR::R0, GPR::R0, 0);
    code.write_lw(GPR::R0, GPR::R0, 0);
    code.write_lwu(GPR::R0, GPR::R0, 0);
    code.write_sb(GPR::R0, GPR::R0, 0);
    code.write_sh(GPR::R0, GPR::R0, 0);
    code.write_slti(GPR::R0, GPR::R0, 0);
    code.write_sltiu(GPR::R0, GPR::R0, 0);
    code.write_sw(GPR::R0, GPR::R0, 0);
    code.write_lui(GPR::R0, 0);
    code.write_xori(GPR::R0, GPR::R0, 0);
    let ops: Vec<u32> = words(&code).iter().map(|w| w >> 26).collect();
    assert_eq!(ops, vec![12, 32, 36, 33, 37, 35, 39, 40, 41, 10, 11, 43, 15, 14]);
}

#[test]
fn vector_loads_and_stores_encode() {
    let mut code = RSPAssembler::new(0);
    code.write_lqv(VR::V1, E::_0, 16, GPR::R0);
    code.write_sqv(VR::V1, E::_0, -16, GPR::T0);
    code.write_lbv(VR::V2, E::_3, -64, GPR::A0);
    code.write_ldv(VR::V2, E::_8, 8, GPR::A0);
    code.write_lsv(VR::V2, E::_2, 2, GPR::A0);
    code.write_llv(VR::V2, E::_4, 4, GPR::A0);
    assert_eq!(words(&code), vec![0xC801_2001, 0xE901_207F, 0xC882_01C0, 0xC882_1C01, 0xC882_0901, 0xC882_1201]);
}

#[test]
fn other_vector_loads_use_their_operations() {
    let mut code = RSPAssembler::new(0);
    code.write_lfv(VR::V0, E::_0, 0, GPR::R0);
    code.write_lhv(VR::V0, E::_0, 0, GPR::R0);
    code.write_lpv(VR::V0, E::_0, 0, GPR::R0);
    code.write_lrv(VR::V0, E::_0, 0, GPR::R0);
    code.write_ltv(VR::V0, E::_0, 0, GPR::R0);
    code.write_luv(VR::V0, E::_0, 0, GPR::R0);
    code.write_lwv(VR::V0, E::_0, 0, GPR::R0);
    let ops: Vec<u32> = words(&code).iter().map(|w| (w >> 11) & 31).collect();
    assert_eq!(ops, vec![9, 8, 6, 5, 11, 7, 10]);
}

#[test]
fn vector_computations_encode() {
    let mut code = RSPAssembler::new(0);
    code.write_vaddc(VR::V1, VR::V2, VR::V3, Element::All);
    code.write_vmudh(VR::V1, VR::V2, VR::V3, Element::_1);
    code.write_vsar(VR::V4, VSARAccumulator::High);
    code.write_vsar_any_index(VR::V4, VR::V0, VR::V0, E::_10);
    assert_eq!(words(&code), vec![0x4A02_1854, 0x4B22_1847, 0x4B00_011D, 0x4B40_011D]);
}

#[test]
fn every_vector_encoder_uses_its_operation() {
    let mut code = RSPAssembler::new(0);
    let (d, t, s, e) = (VR::V0, VR::V0, VR::V0, Element::All);
    code.write_vmulf(d, t, s, e);
    code.write_vmulu(d, t, s, e);
    code.write_vrndp(d, t, s, e);
    code.write_vmulq(d, t, s, e);
    code.write_vmudl(d, t, s, e);
    code.write_vmudm(d, t, s, e);
    code.write_vmudn(d, t, s, e);
    code.write_vmudh(d, t, s, e);
    code.write_vmacf(d, t, s, e);
    code.write_vmacu(d, t, s, e);
    code.write_vrndn(d, t, s, e);
    code.write_vmacq(d, t, s, e);
    code.write_vmadl(d, t, s, e);
    code.write_vmadm(d, t, s, e);
    code.write_vmadn(d, t, s, e);
    code.write_vmadh(d, t, s, e);
    code.write_vadd(d, t, s, e);
    code.write_vsub(d, t, s, e);
    code.write_vsut(d, t, s, e);
    code.write_vabs(d, t, s, e);
    code.write_vaddc(d, t, s, e);
    code.write_vsubc(d, t, s, e);
    code.write_vaddb(d, t, s, e);
    code.write_vsubb(d, t, s, e);
    code.write_vaccb(d, t, s, e);
    code.write_vsucb(d, t, s, e);
    code.write_vsad(d, t, s, e);
    code.write_vsac(d, t, s, e);
    code.write_vsum(d, t, s, e);
    code.write_v30(d, t, s, e);
    code.write_v31(d, t, s, e);
    code.write_vlt(d, t, s, e);
    code.write_veq(d, t, s, e);
    code.write_vne(d, t, s, e);
    code.write_vge(d, t, s, e);
    code.write_vcl(d, t, s, e);
    code.write_vch(d, t, s, e);
    code.write_vcr(d, t, s, e);
    code.write_vmrg(d, t, s, e);
    code.write_vand(d, t, s, e);
    code.write_vnand(d, t, s, e);
    code.write_vor(d, t, s, e);
    code.write_vnor(d, t, s, e);
    code.write_vxor(d, t, s, e);
    code.write_vnxor(d, t, s, e);
    code.write_v46(d, t, s, e);
    code.write_v47(d, t, s, e);
    code.write_vnop(d, t, s, e);
    code.write_vextt(d, t, s, e);
    code.write_vextq(d, t, s, e);
    code.write_vextn(d, t, s, e);
    code.write_v59(d, t, s, e);
    code.write_vinst(d, t, s, e);
    code.write_vinsq(d, t, s, e);
    code.write_vinsn(d, t, s, e);
    code.write_vnull(d, t, s, e);
    let ops: Vec<u32> = words(&code).iter().map(|w| w & 63).collect();
    let expected: Vec<u32> = (0..29).chain(30..48).chain(55..64).collect();
    assert_eq!(ops, expected);
    assert!(words(&code).iter().all(|w| w >> 25 == 0x25));
}

#[test]
fn writer_wraps_at_end_of_spmem() {
    let mut code = RSPAssembler::new(0x1FFC);
    code.write_nop();
    code.write_nop();
    assert_eq!(offsets(&code), vec![0x1FFC, 0]);
    assert_eq!(code.writer().offset(), 4);
}

#[test]
fn set_accumulator_sequence() {
    let mut code = RSPAssembler::new(0x1000);
    assemble_set_accumulator_to(&mut code, VR::V1, VR::V2, VR::V3, VR::V4, VR::V5, VR::V6, GPR::T0);
    let w = words(&code);
    assert_eq!(w.len(), 15);
    // MTC2 R0, V5[0]; ORI T0, R0, 0x4000
    assert_eq!(w[0], 0x4880_2800);
    assert_eq!(w[1], 0x3408_4000);
    // VADDC V6 = V5 + V3[0]
    assert_eq!(w[14], 0x4B05_1994);
    assert_eq!(code.writer().offset(), 0x1000 + 15 * 4);
}

#[test]
fn register_indices_roundtrip() {
    assert!(GPR::from_index(31) == Some(GPR::RA));
    assert!(GPR::from_index(32) == None);
    assert_eq!(GPR::SP.index(), 29);
    assert_eq!(VR::from_index(7), Some(VR::V7));
    assert_eq!(VR::from_index(32), None);
    for i in 0..32 {
        assert_eq!(VR::from_index(i).unwrap().index(), i);
        assert_eq!(GPR::from_index(i).unwrap().index(), i);
    }
    for i in 0..16 {
        assert_eq!(E::from_index(i).unwrap().index(), i);
        assert_eq!(Element::from_index(i).unwrap().index(), i);
    }
    assert_eq!(E::from_index(16), None);
    assert_eq!(Element::from_index(16), None);
}

#[test]
fn effective_element_indices() {
    let lanes = |e: Element| -> Vec<usize> { (0..8).map(|i| e.get_effective_element_index(i)).collect() };
    assert_eq!(lanes(Element::All), vec![0, 1, 2, 3, 4, 5, 6, 7]);
    assert_eq!(lanes(Element::All1), vec![0, 1, 2, 3, 4, 5, 6, 7]);
    assert_eq!(lanes(Element::Q0), vec![0, 0, 2, 2, 4, 4, 6, 6]);
    assert_eq!(lanes(Element::Q1), vec![1, 1, 3, 3, 5, 5, 7, 7]);
    assert_eq!(lanes(Element::H2), vec![2, 2, 2, 2, 6, 6, 6, 6]);
    assert_eq!(lanes(Element::H3), vec![3, 3, 3, 3, 7, 7, 7, 7]);
    assert_eq!(lanes(Element::_5), vec![5; 8]);
}

#[test]
fn register_numbers() {
    assert_eq!(CP0Register::DPClock.value(), 12);
    assert_eq!(CP2FlagsRegister::VCE.value(), 2);
    assert_eq!(VSARAccumulator::Low.value(), 10);
}

#[test]
fn register_steps() {
    assert_eq!(GPR::steps_between(&GPR::T0, &GPR::T3), Some(3));
    assert_eq!(GPR::steps_between(&GPR::RA, &GPR::R0), None);
    assert!(GPR::forward_checked(GPR::S8, 1) == Some(GPR::RA));
    assert!(GPR::forward_checked(GPR::RA, 1) == None);
    assert!(GPR::backward_checked(GPR::AT, 1) == Some(GPR::R0));
    assert_eq!(VR::steps_between(&VR::V1, &VR::V31), Some(30));
    assert_eq!(VR::forward_checked(VR::V30, 1), Some(VR::V31));
    assert_eq!(VR::backward_checked(VR::V31, 31), Some(VR::V0));
    assert_eq!(E::steps_between(&E::_3, &E::_15), Some(12));
    assert_eq!(E::forward_checked(E::_15, 1), None);
    assert_eq!(E::backward_checked(E::_15, 15), Some(E::_0));
}
