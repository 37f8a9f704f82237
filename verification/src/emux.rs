//! Emulator extension instructions: COP0 instructions with the CO bit set and function codes
//! 0x20 to 0x3F, which an emulator may implement to detect extensions, print text and control
//! itself. This module encodes them and makes the decisions around them.

use vstd::prelude::*;

verus! {

/// The function code of XDETECT.
pub const XDETECT_FUNCT: u32 = 0x20;

/// The function code of XLOG.
pub const XLOG_FUNCT: u32 = 0x25;

/// The function code of XIOCTL.
pub const XIOCTL_FUNCT: u32 = 0x2c;

/// The XDETECT code that asks which of the extensions 0x20 to 0x3F exist.
pub const XDETECT_CODE_EXTENSIONS_20_3F: u16 = 0x1;

/// The XLOG code that takes the text's length in rt.
pub const XLOG_CODE_LENGTH_IN_RT: u16 = 0x1;

/// The XIOCTL code that ends emulation.
pub const XIOCTL_EXIT: u16 = 0x1;

/// The XIOCTL code that asks for fast emulation.
pub const XIOCTL_FAST: u16 = 0x2;

/// The XDETECT instruction that the test suite runs: which of the extensions 0x20 to 0x3F
/// exist, answered in register 8.
pub const XDETECT_INSTRUCTION: u32 = (0x10u32 << 26u32) | (0x10u32 << 21u32) | (8u32 << 20u32) | (1u32 << 6u32) | 0x20u32;

/// The XLOG instruction that the test suite runs: the text's address in register 8 and its
/// length in register 9.
pub const XLOG_INSTRUCTION: u32 = (0x10u32 << 26u32) | (0x10u32 << 21u32) | (8u32 << 20u32) | (9u32 << 15u32) | (1u32 << 6u32) | 0x25u32;

/// The XIOCTL instruction that ends emulation.
pub const XIOCTL_EXIT_INSTRUCTION: u32 = (0x10u32 << 26u32) | (0x10u32 << 21u32) | (1u32 << 6u32) | 0x2cu32;

/// The XIOCTL instruction that asks for fast emulation.
pub const XIOCTL_FAST_INSTRUCTION: u32 = (0x10u32 << 26u32) | (0x10u32 << 21u32) | (2u32 << 6u32) | 0x2cu32;

/// An emulator extension instruction: COP0 with the CO bit, then rd (5 bits), rt (5 bits), a
/// 9 bit code and the function.
pub open spec fn extension_word(funct: u32, rd: u8, rt: u8, code: u16) -> u32 {
    (0x10u32 << 26u32) | (0x10u32 << 21u32) | (((rd as u32) & 0x1fu32) << 20u32)
        | (((rt as u32) & 0x1fu32) << 15u32) | (((code as u32) & 0x1ffu32) << 6u32) | funct
}

/// Encodes XDETECT with result register rd.
pub fn encode_xdetect(rd: u8, rt: u8, code: u16) -> (r: u32)
    ensures
        r == extension_word(XDETECT_FUNCT, rd, rt, code),
{
    (0x10u32 << 26u32) | (0x10u32 << 21u32) | (((rd as u32) & 0x1f) << 20u32)
        | (((rt as u32) & 0x1f) << 15u32) | (((code as u32) & 0x1ff) << 6u32) | XDETECT_FUNCT
}

/// Encodes XLOG, which prints the text whose address is in rd and whose length is in rt.
pub fn encode_xlog(rd: u8, rt: u8, code: u16) -> (r: u32)
    ensures
        r == extension_word(XLOG_FUNCT, rd, rt, code),
{
    (0x10u32 << 26u32) | (0x10u32 << 21u32) | (((rd as u32) & 0x1f) << 20u32)
        | (((rt as u32) & 0x1f) << 15u32) | (((code as u32) & 0x1ff) << 6u32) | XLOG_FUNCT
}

/// Encodes XIOCTL with the given code.
pub fn encode_xioctl(code: u16) -> (r: u32)
    ensures
        r == extension_word(XIOCTL_FUNCT, 0, 0, code),
{
    (0x10u32 << 26u32) | (0x10u32 << 21u32) | (((0u8 as u32) & 0x1f) << 20u32) | (((0u8 as u32) & 0x1f) << 15u32)
        | (((code as u32) & 0x1ff) << 6u32) | XIOCTL_FUNCT
}

/// The XIOCTL instruction for `code`, for the codes that the test suite uses (exit and fast);
/// other codes give no instruction.
pub fn xioctl_instruction(code: u16) -> (r: Option<u32>)
    ensures
        r == (if code == XIOCTL_EXIT || code == XIOCTL_FAST {
            Some(extension_word(XIOCTL_FUNCT, 0, 0, code))
        } else {
            None
        }),
{
    if code == XIOCTL_EXIT || code == XIOCTL_FAST {
        Some(encode_xioctl(code))
    } else {
        None
    }
}

/// What is known about the emulator's support of XLOG.
#[derive(Clone, Copy, Debug, PartialEq, Eq, Structural)]
pub enum LogCaps {
    Unknown,
    Unsupported,
    Supported,
}

/// Whether the extension mask that XDETECT returned has the XLOG bit.
pub open spec fn log_supported_by(extensions_mask: u32) -> bool {
    extensions_mask & (1u32 << (XLOG_FUNCT - 0x20) as u32) != 0
}

/// What an XDETECT result says about XLOG support.
pub fn log_caps_from_extensions(extensions_mask: u32) -> (r: LogCaps)
    ensures
        r == (if log_supported_by(extensions_mask) { LogCaps::Supported } else { LogCaps::Unsupported }),
{
    if (extensions_mask & (1u32 << (XLOG_FUNCT - 0x20))) != 0 {
        LogCaps::Supported
    } else {
        LogCaps::Unsupported
    }
}

/// Whether text can be logged, as far as `caps` knows; `None` means that XDETECT must be asked.
pub fn cached_log_support(caps: LogCaps) -> (r: Option<bool>)
    ensures
        r == (match caps {
            LogCaps::Unknown => None,
            LogCaps::Unsupported => Some(false),
            LogCaps::Supported => Some(true),
        }),
{
    match caps {
        LogCaps::Supported => Some(true),
        LogCaps::Unsupported => Some(false),
        LogCaps::Unknown => None,
    }
}

/// The instructions that the test suite runs are the encodings of their operands.
pub proof fn lemma_instruction_constants()
    by (bit_vector)
    ensures
        XDETECT_INSTRUCTION == extension_word(XDETECT_FUNCT, 8, 0, XDETECT_CODE_EXTENSIONS_20_3F),
        XLOG_INSTRUCTION == extension_word(XLOG_FUNCT, 8, 9, XLOG_CODE_LENGTH_IN_RT),
        XIOCTL_EXIT_INSTRUCTION == extension_word(XIOCTL_FUNCT, 0, 0, XIOCTL_EXIT),
        XIOCTL_FAST_INSTRUCTION == extension_word(XIOCTL_FUNCT, 0, 0, XIOCTL_FAST),
{
}

/// An extension instruction is a COP0 instruction with the CO bit, and carries its operands in
/// its fields.
pub proof fn lemma_extension_fields(funct: u32, rd: u8, rt: u8, code: u16)
    requires
        0x20 <= funct < 0x40,
    ensures
        extension_word(funct, rd, rt, code) >> 26u32 == 0x10,
        (extension_word(funct, rd, rt, code) >> 25u32) & 1u32 == 1,
        (extension_word(funct, rd, rt, code) >> 20u32) & 0x1fu32 == (rd as u32) & 0x1fu32,
        (extension_word(funct, rd, rt, code) >> 15u32) & 0x1fu32 == (rt as u32) & 0x1fu32,
        (extension_word(funct, rd, rt, code) >> 6u32) & 0x1ffu32 == (code as u32) & 0x1ffu32,
        extension_word(funct, rd, rt, code) & 0x3fu32 == funct,
{
    let d = rd as u32;
    let t = rt as u32;
    let c = code as u32;
    assert({
        let w = (0x10u32 << 26u32) | (0x10u32 << 21u32) | ((d & 0x1fu32) << 20u32)
            | ((t & 0x1fu32) << 15u32) | ((c & 0x1ffu32) << 6u32) | funct;
        &&& w >> 26u32 == 0x10
        &&& (w >> 25u32) & 1u32 == 1
        &&& (w >> 20u32) & 0x1fu32 == d & 0x1fu32
        &&& (w >> 15u32) & 0x1fu32 == t & 0x1fu32
        &&& (w >> 6u32) & 0x1ffu32 == c & 0x1ffu32
        &&& w & 0x3fu32 == funct
    }) by (bit_vector)
        requires
            0x20u32 <= funct < 0x40u32;
}

} // verus!
