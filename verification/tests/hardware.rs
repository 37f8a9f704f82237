use n64_systemtest::emux::{
    cached_log_support, encode_xdetect, encode_xioctl, encode_xlog, log_caps_from_extensions, xioctl_instruction,
    LogCaps, XDETECT_INSTRUCTION, XIOCTL_EXIT, XIOCTL_EXIT_INSTRUCTION, XIOCTL_FAST, XIOCTL_FAST_INSTRUCTION,
    XLOG_INSTRUCTION,
};
use n64_systemtest::isviewer::pack;
use n64_systemtest::mi::{clear_interrupt_mask, is_sp_interrupt, set_interrupt_mask, Interrupt, InterruptMaskWrite};
use n64_systemtest::pi::{Pi, PiStatusWrite};
use n64_systemtest::register::RegisterWrite;
use n64_systemtest::rsp::rsp::RSP;
use n64_systemtest::sc64::{block_length, command_done, command_failed, dma_length, text_header, usb_write_busy};

fn store(address: u32, value: u32) -> RegisterWrite {
    RegisterWrite { address, value }
}

#[test]
fn emulator_extension_words() {
    assert_eq!(encode_xdetect(8, 0, 1), 0x4280_0060);
    assert_eq!(encode_xlog(8, 9, 1), 0x4284_8065);
    assert_eq!(encode_xioctl(XIOCTL_FAST), 0x4200_00AC);
    assert_eq!(encode_xioctl(XIOCTL_EXIT), 0x4200_006C);
    assert_eq!(encode_xlog(0x28, 0x29, 0x201), 0x4284_8065);
}

#[test]
fn instruction_constants_match_the_encoders() {
    assert_eq!(XDETECT_INSTRUCTION, encode_xdetect(8, 0, 1));
    assert_eq!(XLOG_INSTRUCTION, encode_xlog(8, 9, 1));
    assert_eq!(XIOCTL_EXIT_INSTRUCTION, encode_xioctl(XIOCTL_EXIT));
    assert_eq!(XIOCTL_FAST_INSTRUCTION, encode_xioctl(XIOCTL_FAST));
}

#[test]
fn xioctl_only_for_known_codes() {
    assert_eq!(xioctl_instruction(XIOCTL_EXIT), Some(0x4200_006C));
    assert_eq!(xioctl_instruction(XIOCTL_FAST), Some(0x4200_00AC));
    assert_eq!(xioctl_instruction(3), None);
    assert_eq!(xioctl_instruction(0), None);
}

#[test]
fn log_caps_follow_the_detected_mask() {
    assert_eq!(log_caps_from_extensions(1 << 5), LogCaps::Supported);
    assert_eq!(log_caps_from_extensions(0xFFFF_FFDF), LogCaps::Unsupported);
    assert_eq!(log_caps_from_extensions(0), LogCaps::Unsupported);
    assert_eq!(cached_log_support(LogCaps::Unknown), None);
    assert_eq!(cached_log_support(LogCaps::Supported), Some(true));
    assert_eq!(cached_log_support(LogCaps::Unsupported), Some(false));
}

#[test]
fn isviewer_packs_big_endian_and_pads() {
    assert_eq!(pack(b"Hello"), vec![0x4865_6C6C, 0x6F00_0000]);
    assert_eq!(pack(b"abcd"), vec![0x6162_6364]);
    assert_eq!(pack(b""), Vec::<u32>::new());
}

#[test]
fn sc64_status_bits() {
    assert!(command_done(0x4000_0000));
    assert!(!command_done(0x8000_0000));
    assert!(command_failed(0x4000_0000));
    assert!(!command_failed(0x8000_0000));
    assert!(usb_write_busy(0x8000_0001));
    assert!(!usb_write_busy(0x7FFF_FFFF));
}

#[test]
fn sc64_lengths() {
    assert_eq!(dma_length(0), 0);
    assert_eq!(dma_length(7), 8);
    assert_eq!(dma_length(8), 8);
    assert_eq!(block_length(1000, 0), 512);
    assert_eq!(block_length(1000, 512), 488);
    assert_eq!(block_length(512, 0), 512);
    assert_eq!(text_header(5), 0x0100_0005);
    assert_eq!(text_header(0x0123_4567), 0x0123_4567);
}

#[test]
fn mi_interrupt_mask() {
    assert_eq!(clear_interrupt_mask(), store(0xA430_000C, 0x555));
    let mask = InterruptMaskWrite::new().with_setSP(true).with_setDP(true);
    assert_eq!(mask.raw_value(), 0x802);
    assert_eq!(set_interrupt_mask(mask), store(0xA430_000C, 0x802));
    assert!(is_sp_interrupt(0x21));
    assert!(!is_sp_interrupt(0x3E));
    let i = Interrupt::new_with_raw_value(0x14);
    assert!(i.pi() && i.ai() && !i.sp() && !i.vi());
}

#[test]
fn pi_register_stores() {
    assert_eq!(Pi::set_dram_address(0x1234), store(0xA460_0000, 0x1234));
    assert_eq!(Pi::set_cart_address(0x1000_0000), store(0xA460_0004, 0x1000_0000));
    assert_eq!(Pi::set_read_length(7), store(0xA460_0008, 7));
    assert_eq!(Pi::set_write_length(9), store(0xA460_000C, 9));
    assert_eq!(Pi::set_status(PiStatusWrite::new().with_clear_interrupt(true)), store(0xA460_0010, 2));
    assert_eq!(Pi::set_status(PiStatusWrite::new().with_reset(true)).value, 1);
    let s = Pi::status(0b1011);
    assert!(s.interrupt() && !s.error() && s.io_busy() && s.dma_busy());
}

#[test]
fn rsp_start_and_dma() {
    assert_eq!(RSP::start_running(0x40), [store(0xA408_0000, 0x40), store(0xA404_0010, 0b1000_1001)]);
    assert_eq!(
        RSP::start_dma_sp_to_cpu(0x100, 0x8000, 31),
        [store(0xA404_0000, 0x100), store(0xA404_0004, 0x8000), store(0xA404_000C, 31)]
    );
    assert_eq!(
        RSP::start_dma_cpu_to_sp(0x8000, 0x100, 15),
        [store(0xA404_0000, 0x100), store(0xA404_0004, 0x8000), store(0xA404_0008, 15)]
    );
    assert_eq!(RSP::set_semaphore(0), store(0xA404_001C, 0));
}

#[test]
fn rsp_status_checks() {
    assert!(RSP::wait_until_rsp_is_halted(0b1));
    assert!(!RSP::wait_until_rsp_is_halted(0b100));
    assert!(RSP::wait_until_rsp_is_halted_and_dma_completed(0b1));
    assert!(!RSP::wait_until_rsp_is_halted_and_dma_completed(0b101));
    assert!(!RSP::wait_until_rsp_is_halted_and_dma_completed(0b0));
    assert!(RSP::wait_until_dma_completed(0b1));
    assert!(!RSP::wait_until_dma_completed(0b100));
    assert!(RSP::is_interrupt_on_break(0b100_0000));
    assert!(!RSP::is_interrupt_on_break(0b011_1111));
}

#[test]
fn rsp_signal_bits() {
    assert_eq!(RSP::get_set_signal_bit(0), 1 << 10);
    assert_eq!(RSP::get_clear_signal_bit(0), 1 << 9);
    assert_eq!(RSP::get_is_signal_bit(0), 1 << 7);
    assert_eq!(RSP::get_set_signal_bit(7), 1 << 24);
    assert_eq!(RSP::get_clear_signal_bit(7), 1 << 23);
    assert_eq!(RSP::get_is_signal_bit(7), 1 << 14);
    assert_eq!(RSP::set_signal(3), store(0xA404_0010, 1 << 16));
    assert_eq!(RSP::clear_signal(3), store(0xA404_0010, 1 << 15));
    assert!(RSP::is_signal(3, 1 << 10));
    assert!(!RSP::is_signal(2, 1 << 10));
}

#[test]
fn rsp_interrupt_stores() {
    assert_eq!(RSP::set_interrupt(), store(0xA404_0010, 0b1_0000));
    assert_eq!(RSP::clear_interrupt(), store(0xA404_0010, 0b1000));
    assert_eq!(RSP::set_interrupt_on_break(), store(0xA404_0010, 0b1_0000_0000));
    assert_eq!(RSP::clear_interrupt_on_break(), store(0xA404_0010, 0b1000_0000));
    assert_eq!(RSP::clear_broke(), store(0xA404_0010, 0b100));
    assert_eq!(RSP::set_status(0x12), store(0xA404_0010, 0x12));
    assert_eq!(RSP::set_pc(0x80), store(0xA408_0000, 0x80));
}
