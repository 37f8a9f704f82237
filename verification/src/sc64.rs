//! SummerCart64 debug output over USB: the numbers and decisions around its commands.

use vstd::prelude::*;

verus! {

/// The cartridge address of the SummerCart64's ROM.
pub const SC64_CART: u32 = 0x1000_0000;

/// The top of the ROM space used for debug output.
pub const DEBUG_TOP: u32 = 0x0400_0000;

/// The space kept free at the top of ROM for USB transfers.
pub const USB_IO_RESERVE: u32 = 8 * 1024 * 1024;

/// The ROM offset of the debug buffer.
pub const DEBUG_OFF: u32 = DEBUG_TOP - USB_IO_RESERVE;

/// The cartridge address of the debug buffer.
pub const DBG_PHYS: u32 = SC64_CART + DEBUG_OFF;

/// Status bit: the command is still running.
pub const SR_CMD_BUSY: u32 = 1 << 31;

/// Status bit: the command failed.
pub const SR_CMD_ERR: u32 = 1 << 30;

/// First result word of the USB status command: a write is in progress.
pub const USB_WRITE_STATUS_BUSY: u32 = 1 << 31;

/// The USB data type of text.
pub const DATATYPE_TEXT: u32 = 1;

/// The most bytes that one DMA to the debug buffer takes.
pub const BLOCK: usize = 512;

/// The alignment of PI DMA lengths.
pub const DMA_ALIGN: usize = 2;

/// Whether a command has finished, given the command register's value.
pub fn command_done(status: u32) -> (r: bool)
    ensures
        r == (status & SR_CMD_BUSY == 0),
{
    status & SR_CMD_BUSY == 0
}

/// Whether a finished command failed, given the command register's value.
pub fn command_failed(status: u32) -> (r: bool)
    ensures
        r == (status & SR_CMD_ERR != 0),
{
    status & SR_CMD_ERR != 0
}

/// Whether a USB write is still in progress, given the first result word of the USB status
/// command.
pub fn usb_write_busy(status0: u32) -> (r: bool)
    ensures
        r == (status0 & USB_WRITE_STATUS_BUSY != 0),
{
    status0 & USB_WRITE_STATUS_BUSY != 0
}

/// The DMA length for `n` bytes: `n` rounded up to the DMA alignment.
pub fn dma_length(n: usize) -> (r: usize)
    requires
        n < usize::MAX,
    ensures
        r == n + n % 2,
{
    let m = n + (DMA_ALIGN - 1);
    let r = m & !(DMA_ALIGN - 1);
    assert(r == m - m % 2) by (bit_vector)
        requires
            r == m & !1usize;
    r
}

/// The bytes of the block that starts at `off` of a text of `len` bytes.
pub fn block_length(len: usize, off: usize) -> (r: usize)
    requires
        off < len,
    ensures
        r == if len - off < BLOCK { len - off } else { BLOCK as int },
{
    if BLOCK < len - off { BLOCK } else { len - off }
}

/// The header of a USB text message of `len` bytes: the data type in the top byte and the
/// length, cut to 24 bits, below it.
pub fn text_header(len: usize) -> (r: u32)
    ensures
        r == (DATATYPE_TEXT << 24u32) | ((len as u32) & 0xFFFFFFu32),
{
    (DATATYPE_TEXT << 24) | (len as u32 & 0xFFFFFF)
}

/// The command that sets a configuration item: arguments item and value, result the old value.
pub const CMD_CONFIG_SET: u32 = 0x43;

/// The command that reports the USB write status: result word 0 holds the busy flag.
pub const CMD_USB_WRITE_STATUS: u32 = 0x55;

/// The command that sends a message over USB: arguments the message's address and header.
pub const CMD_USB_WRITE: u32 = 0x4D;

/// The configuration item that allows writes to ROM.
pub const CFG_ROM_WRITE_ENABLE: u32 = 1;

/// How many times the USB write status is asked for at most after sending.
pub const POLL_MAX: u32 = 500_000;

/// Where sending a text of debug output stands.
#[derive(Clone, Copy, Debug, PartialEq, Eq, Structural)]
pub enum TextOutState {
    /// Waiting for the USB write status, to send only when no write is in progress.
    CheckIdle,
    /// Waiting for ROM writes to be enabled.
    EnableWrites,
    /// Copying the text into the debug buffer: the offset copied up to, and the ROM write
    /// setting to restore afterwards.
    Copying(usize, u32),
    /// Waiting for the ROM write setting to be restored.
    RestoreWrites,
    /// Waiting for the message to be handed to USB.
    Send,
    /// Waiting for the USB write to finish: the number of status requests made.
    Poll(u32),
    /// Done.
    Finished,
}

/// What to do next while sending a text.
#[derive(Clone, Copy, Debug, PartialEq, Eq, Structural)]
pub enum TextOutStep {
    /// Run the command that takes no arguments.
    Command(u32),
    /// Write the two arguments, then run the command: command, argument 0, argument 1.
    CommandWithArgs(u32, u32, u32),
    /// Copy the text's bytes from the offset, as many as the length, to the same offset of the
    /// debug buffer: offset, length.
    Copy(usize, usize),
    /// Nothing more.
    Done,
}

/// The bytes of the block that starts at `off` of a text of `len` bytes.
pub open spec fn spec_block_length(len: usize, off: usize) -> usize {
    if len - off < BLOCK { (len - off) as usize } else { BLOCK }
}

/// Whether a command's results say that a USB write is in progress.
pub open spec fn results_busy(results: [u32; 2]) -> bool {
    results@[0] & USB_WRITE_STATUS_BUSY != 0
}

/// The header of a USB text message of `len` bytes.
pub open spec fn spec_text_header(len: usize) -> u32 {
    (DATATYPE_TEXT << 24u32) | ((len as u32) & 0xFFFFFFu32)
}

/// Whether a state can occur while sending a text of `len` bytes.
pub open spec fn text_out_state_valid(state: TextOutState, len: usize) -> bool {
    match state {
        TextOutState::Copying(off, _) => 0 < off <= len,
        TextOutState::Poll(count) => 0 < count <= POLL_MAX,
        TextOutState::Finished => true,
        _ => len > 0,
    }
}

/// Whether the state waits for the results of a command (else for the end of a copy).
pub open spec fn waits_for_command(state: TextOutState) -> bool {
    !(state is Copying) && !(state is Finished)
}

/// How sending a text starts: nothing to do for an empty text, else ask whether USB is idle.
pub open spec fn text_out_first(len: usize) -> (TextOutState, TextOutStep) {
    if len == 0 {
        (TextOutState::Finished, TextOutStep::Done)
    } else {
        (TextOutState::CheckIdle, TextOutStep::Command(CMD_USB_WRITE_STATUS))
    }
}

/// The next state and step of sending a text of `len` bytes, given the results of the last
/// command (`None` after a copy). A failed command ends the sending, except the one that
/// restores the ROM write setting, whose outcome does not matter.
pub open spec fn text_out_transition(state: TextOutState, len: usize, result: Option<Result<[u32; 2], ()>>) -> (TextOutState, TextOutStep) {
    match state {
        TextOutState::CheckIdle => match result {
            Some(Ok(st)) if !results_busy(st) => (
                TextOutState::EnableWrites,
                TextOutStep::CommandWithArgs(CMD_CONFIG_SET, CFG_ROM_WRITE_ENABLE, 1),
            ),
            _ => (TextOutState::Finished, TextOutStep::Done),
        },
        TextOutState::EnableWrites => match result {
            Some(Ok(old)) => (
                TextOutState::Copying(spec_block_length(len, 0), old@[1]),
                TextOutStep::Copy(0, spec_block_length(len, 0)),
            ),
            _ => (TextOutState::Finished, TextOutStep::Done),
        },
        TextOutState::Copying(off, restore) => if off < len {
            (
                TextOutState::Copying((off + spec_block_length(len, off)) as usize, restore),
                TextOutStep::Copy(off, spec_block_length(len, off)),
            )
        } else {
            (TextOutState::RestoreWrites, TextOutStep::CommandWithArgs(CMD_CONFIG_SET, CFG_ROM_WRITE_ENABLE, restore))
        },
        TextOutState::RestoreWrites => (
            TextOutState::Send,
            TextOutStep::CommandWithArgs(CMD_USB_WRITE, DBG_PHYS, spec_text_header(len)),
        ),
        TextOutState::Send => match result {
            Some(Ok(_)) => (TextOutState::Poll(1), TextOutStep::Command(CMD_USB_WRITE_STATUS)),
            _ => (TextOutState::Finished, TextOutStep::Done),
        },
        TextOutState::Poll(count) => match result {
            Some(Ok(st)) if !results_busy(st) => (TextOutState::Finished, TextOutStep::Done),
            _ => if count < POLL_MAX {
                (TextOutState::Poll((count + 1) as u32), TextOutStep::Command(CMD_USB_WRITE_STATUS))
            } else {
                (TextOutState::Finished, TextOutStep::Done)
            },
        },
        TextOutState::Finished => (TextOutState::Finished, TextOutStep::Done),
    }
}

/// The first state and step of sending a text of `len` bytes.
pub fn text_out_start(len: usize) -> (r: (TextOutState, TextOutStep))
    ensures
        r == text_out_first(len),
        text_out_state_valid(r.0, len),
{
    if len == 0 {
        (TextOutState::Finished, TextOutStep::Done)
    } else {
        (TextOutState::CheckIdle, TextOutStep::Command(CMD_USB_WRITE_STATUS))
    }
}

/// The next state and step of sending a text of `len` bytes, given the results of the command
/// that the last step ran, or `None` when it was a copy.
pub fn text_out_next(state: TextOutState, len: usize, result: Option<Result<[u32; 2], ()>>) -> (r: (TextOutState, TextOutStep))
    requires
        text_out_state_valid(state, len),
    ensures
        r == text_out_transition(state, len, result),
        text_out_state_valid(r.0, len),
{
    match state {
        TextOutState::CheckIdle => match result {
            Some(Ok(st)) if !usb_write_busy(st[0]) => (
                TextOutState::EnableWrites,
                TextOutStep::CommandWithArgs(CMD_CONFIG_SET, CFG_ROM_WRITE_ENABLE, 1),
            ),
            _ => (TextOutState::Finished, TextOutStep::Done),
        },
        TextOutState::EnableWrites => match result {
            Some(Ok(old)) => {
                let n = block_length(len, 0);
                (TextOutState::Copying(n, old[1]), TextOutStep::Copy(0, n))
            },
            _ => (TextOutState::Finished, TextOutStep::Done),
        },
        TextOutState::Copying(off, restore) => if off < len {
            let n = block_length(len, off);
            (TextOutState::Copying(off + n, restore), TextOutStep::Copy(off, n))
        } else {
            (TextOutState::RestoreWrites, TextOutStep::CommandWithArgs(CMD_CONFIG_SET, CFG_ROM_WRITE_ENABLE, restore))
        },
        TextOutState::RestoreWrites => (
            TextOutState::Send,
            TextOutStep::CommandWithArgs(CMD_USB_WRITE, DBG_PHYS, text_header(len)),
        ),
        TextOutState::Send => match result {
            Some(Ok(_)) => (TextOutState::Poll(1), TextOutStep::Command(CMD_USB_WRITE_STATUS)),
            _ => (TextOutState::Finished, TextOutStep::Done),
        },
        TextOutState::Poll(count) => match result {
            Some(Ok(st)) if !usb_write_busy(st[0]) => (TextOutState::Finished, TextOutStep::Done),
            _ => if count < POLL_MAX {
                (TextOutState::Poll(count + 1), TextOutStep::Command(CMD_USB_WRITE_STATUS))
            } else {
                (TextOutState::Finished, TextOutStep::Done)
            },
        },
        TextOutState::Finished => (TextOutState::Finished, TextOutStep::Done),
    }
}

/// An upper bound on the steps left from a state.
pub open spec fn steps_left(state: TextOutState, len: usize) -> nat {
    match state {
        TextOutState::CheckIdle => (POLL_MAX + 5 + len) as nat,
        TextOutState::EnableWrites => (POLL_MAX + 4 + len) as nat,
        TextOutState::Copying(off, _) => (POLL_MAX + 3 + len - off) as nat,
        TextOutState::RestoreWrites => (POLL_MAX + 2) as nat,
        TextOutState::Send => (POLL_MAX + 1) as nat,
        TextOutState::Poll(count) => (POLL_MAX + 1 - count) as nat,
        TextOutState::Finished => 0,
    }
}

/// Sending a text always ends: each step from an unfinished state leads to a valid state with
/// fewer steps left, so at most `POLL_MAX + 5 + len` steps are taken.
pub proof fn lemma_text_out_ends(state: TextOutState, len: usize, result: Option<Result<[u32; 2], ()>>)
    requires
        text_out_state_valid(state, len),
        !(state is Finished),
    ensures
        text_out_state_valid(text_out_transition(state, len, result).0, len),
        steps_left(text_out_transition(state, len, result).0, len) < steps_left(state, len),
{
}

/// The copies tile the text: the first one starts at offset 0, each one takes at most a block
/// and starts where the one before ended, and the ROM write setting is restored only once the
/// whole text is copied, to the value that enabling the writes reported.
pub proof fn lemma_text_out_copies(state: TextOutState, len: usize, result: Option<Result<[u32; 2], ()>>)
    requires
        text_out_state_valid(state, len),
    ensures
        text_out_transition(state, len, result).1 matches TextOutStep::Copy(off, n) ==> {
            &&& 0 < n <= BLOCK
            &&& off + n <= len
            &&& text_out_transition(state, len, result).0 == TextOutState::Copying((off + n) as usize, match state {
                TextOutState::Copying(_, restore) => restore,
                _ => result->Some_0->Ok_0@[1],
            })
            &&& state is EnableWrites ==> off == 0
            &&& state matches TextOutState::Copying(done, _) ==> off == done
        },
        text_out_transition(state, len, result).0 is RestoreWrites ==> (state matches TextOutState::Copying(done, restore)
            && done == len
            && text_out_transition(state, len, result).1 == TextOutStep::CommandWithArgs(CMD_CONFIG_SET, CFG_ROM_WRITE_ENABLE, restore)),
        text_out_transition(state, len, result).0 is EnableWrites ==> state is CheckIdle
            && (result matches Some(Ok(st)) && !results_busy(st)),
{
}

} // verus!
