use n64_systemtest::cop0::{
    make_entry_hi, preset_cause_to_copindex2_outcome, make_entry_lo, Cause, CauseException, Context, RegisterIndex, Status, StatusKSU, XContext,
};

#[test]
fn cop0_register_numbers() {
    assert_eq!(RegisterIndex::Index.value(), 0x00);
    assert_eq!(RegisterIndex::BadVAddr.value(), 0x08);
    assert_eq!(RegisterIndex::Status.value(), 0x0C);
    assert_eq!(RegisterIndex::XContext.value(), 0x14);
    assert_eq!(RegisterIndex::ErrorEPC.value(), 0x1E);
}

#[test]
fn default_status_values() {
    assert_eq!(Status::default_status().raw_value(), 0x2400_0000);
    assert!(Status::default_status().cop1usable());
    assert!(Status::default_status().fpu64());
    assert!(!Status::default_status().kx());
    assert_eq!(Status::addressing_mode_64_bit().raw_value(), 0x2400_00E0);
    assert!(Status::addressing_mode_64_bit().ux());
}

#[test]
fn status_fields() {
    let s = Status::new().with_ksu(StatusKSU::User).with_exl(true).with_ie(true);
    assert_eq!(s.raw_value(), 0x13);
    assert_eq!(s.ksu(), Some(StatusKSU::User));
    assert_eq!(Status::new_with_raw_value(0x18).ksu(), None);
    let s = Status::new_with_raw_value(0xFF00);
    assert!(s.interrupt_mask_compare());
    assert!(s.interrupt_mask_sw1());
    assert!(!s.erl());
}

#[test]
fn cause_fields() {
    let c = Cause::new().with_exception(CauseException::Sys).with_branch_delay(true).with_coprocessor_error(2);
    assert_eq!(c.raw_value(), 0xA000_0020);
    assert_eq!(c.exception(), Some(CauseException::Sys));
    assert_eq!(c.coprocessor_error(), 2);
    assert!(c.branch_delay());
    assert_eq!(Cause::new_with_raw_value(0x5C).exception(), Some(CauseException::Watch));
    assert_eq!(Cause::new_with_raw_value(0x40).exception(), None);
    assert!(Cause::new_with_raw_value(0x8000).interrupt_compare());
}

#[test]
fn exception_codes_roundtrip() {
    for v in 0..32u8 {
        match CauseException::new_with_raw_value(v) {
            Some(e) => assert_eq!(e.raw_value(), v),
            None => assert!((16..=22).contains(&v) || v >= 24),
        }
    }
    assert_eq!(CauseException::CopUnusable.raw_value(), 11);
    assert_eq!(StatusKSU::new_with_raw_value(3), None);
    assert_eq!(StatusKSU::Supervisor.raw_value(), 1);
}

#[test]
fn context_from_virtual_address() {
    let c = Context::from_virtual_address(0xFFFF_FFFF_8012_3456);
    assert_eq!(c.bad_vpn2(), 0x4_0091);
    assert_eq!(c.pte_base(), 0);
    assert_eq!(c.raw_value(), 0x0000_0000_0040_0910);
    assert_eq!(Context::from_virtual_address(0xFFFF_E000).raw_value(), 0x7FFFF << 4);
}

#[test]
fn xcontext_from_virtual_address() {
    let x = XContext::from_virtual_address(0xC000_00FF_FFFF_E000);
    assert_eq!(x.bad_vpn2(), 0x7FF_FFFF);
    assert_eq!(x.r(), 3);
    assert_eq!(x.raw_value(), (0x7FF_FFFFu64 << 4) | (3u64 << 31));
}

#[test]
fn entry_words() {
    assert_eq!(make_entry_lo(true, true, false, 2, 0x123), 0x48D3);
    assert_eq!(make_entry_lo(false, false, true, 7, 0xFF_FFFF), 0x3FFF_FFFC);
    assert_eq!(make_entry_hi(5, 0x12, 2), 0x8000_0000_0002_4005);
}

#[test]
fn xcontext_of_entry_hi_address() {
    let hi = make_entry_hi(0x7F, 0x123_4567, 1);
    let x = XContext::from_virtual_address(hi);
    assert_eq!(x.bad_vpn2(), 0x123_4567);
    assert_eq!(x.r(), 1);
    assert_eq!(x.pte_base(), 0);
}

#[test]
fn copindex2_cause_is_judged_exactly() {
    let good = Cause::new().with_coprocessor_error(2).with_exception(CauseException::CopUnusable);
    assert_eq!(good.raw_value(), 0x2000_002C);
    assert_eq!(preset_cause_to_copindex2_outcome(good), Ok(()));
    let wrong_cop = Cause::new().with_coprocessor_error(1).with_exception(CauseException::CopUnusable);
    assert_eq!(preset_cause_to_copindex2_outcome(wrong_cop), Err("Presetting Cause.copindex to 2 failed".to_string()));
    let with_delay = good.with_branch_delay(true);
    assert!(preset_cause_to_copindex2_outcome(with_delay).is_err());
}
