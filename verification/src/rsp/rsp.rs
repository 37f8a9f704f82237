//! The RSP's control registers: where a DMA goes, how the RSP is started and stopped, and its
//! signal bits. Every operation that stores to a register returns the stores to make; every
//! question about the RSP's state takes the value that was read from its status register.

use vstd::prelude::*;

use crate::register::RegisterWrite;

verus! {

/// The address of the SP memory address register.
pub const SP_SP_ADDRESS_REG: u32 = 0xA404_0000;

/// The address of the SP DRAM address register.
pub const SP_DRAM_ADDRESS_REG: u32 = 0xA404_0004;

/// The address of the SP read length register (a write starts a DMA from RDRAM to SPMEM).
pub const SP_READ_LENGTH_REG: u32 = 0xA404_0008;

/// The address of the SP write length register (a write starts a DMA from SPMEM to RDRAM).
pub const SP_WRITE_LENGTH_REG: u32 = 0xA404_000C;

/// The address of the SP status register.
pub const SP_STATUS_REG: u32 = 0xA404_0010;

/// The address of the SP semaphore register.
pub const SP_SEMAPHORE_REG: u32 = 0xA404_001C;

/// The address of the SP program counter.
pub const SP_PC_REG: u32 = 0xA408_0000;

pub const SP_STATUS_HALT: u32 = 0b1;
pub const SP_STATUS_DMA_BUSY: u32 = 0b100;
pub const SP_STATUS_INTERRUPT_ON_BREAK: u32 = 0b1000000;

pub const SP_STATUS_SET_CLEAR_HALT: u32 = 0b1;
pub const SP_STATUS_SET_SET_HALT: u32 = 0b10;
pub const SP_STATUS_SET_CLEAR_BROKE: u32 = 0b100;
pub const SP_STATUS_SET_CLEAR_INTERRUPT: u32 = 0b1000;
pub const SP_STATUS_SET_SET_INTERRUPT: u32 = 0b1_0000;
pub const SP_STATUS_SET_CLEAR_INTERRUPT_ON_BREAK: u32 = 0b1_0000_000;
pub const SP_STATUS_SET_SET_INTERRUPT_ON_BREAK: u32 = 0b10_0000_000;

/// The status bit that sets signal `i` when written.
pub open spec fn set_signal_bit(i: u32) -> u32 {
    1u32 << (10 + i * 2) as u32
}

/// The status bit that clears signal `i` when written.
pub open spec fn clear_signal_bit(i: u32) -> u32 {
    1u32 << (9 + i * 2) as u32
}

/// The status bit that reads back signal `i`.
pub open spec fn is_signal_bit(i: u32) -> u32 {
    1u32 << (7 + i) as u32
}

pub struct RSP {}

impl RSP {
    /// Sets the SPMEM address of the next DMA.
    pub fn set_sp_address(value: u32) -> (r: RegisterWrite)
        ensures
            r == (RegisterWrite { address: SP_SP_ADDRESS_REG, value }),
    {
        RegisterWrite::new(SP_SP_ADDRESS_REG, value)
    }

    /// Sets the RDRAM address of the next DMA.
    pub fn set_dram_address(value: u32) -> (r: RegisterWrite)
        ensures
            r == (RegisterWrite { address: SP_DRAM_ADDRESS_REG, value }),
    {
        RegisterWrite::new(SP_DRAM_ADDRESS_REG, value)
    }

    fn set_read_length(value: u32) -> (r: RegisterWrite)
        ensures
            r == (RegisterWrite { address: SP_READ_LENGTH_REG, value }),
    {
        RegisterWrite::new(SP_READ_LENGTH_REG, value)
    }

    fn set_write_length(value: u32) -> (r: RegisterWrite)
        ensures
            r == (RegisterWrite { address: SP_WRITE_LENGTH_REG, value }),
    {
        RegisterWrite::new(SP_WRITE_LENGTH_REG, value)
    }

    /// Writes the status register (each bit sets or clears a part of the RSP's state).
    pub fn set_status(value: u32) -> (r: RegisterWrite)
        ensures
            r == (RegisterWrite { address: SP_STATUS_REG, value }),
    {
        RegisterWrite::new(SP_STATUS_REG, value)
    }

    /// Sets the program counter.
    pub fn set_pc(value: u32) -> (r: RegisterWrite)
        ensures
            r == (RegisterWrite { address: SP_PC_REG, value }),
    {
        RegisterWrite::new(SP_PC_REG, value)
    }

    /// Starts the RSP at `pc`: sets the program counter, then clears halt, the interrupt and
    /// interrupt-on-break.
    pub fn start_running(pc: usize) -> (r: [RegisterWrite; 2])
        ensures
            r@ == seq![
                RegisterWrite { address: SP_PC_REG, value: pc as u32 },
                RegisterWrite { address: SP_STATUS_REG, value: SP_STATUS_SET_CLEAR_HALT | SP_STATUS_SET_CLEAR_INTERRUPT | SP_STATUS_SET_CLEAR_INTERRUPT_ON_BREAK },
            ],
    {
        let r = [
            Self::set_pc(pc as u32),
            Self::set_status(SP_STATUS_SET_CLEAR_HALT | SP_STATUS_SET_CLEAR_INTERRUPT | SP_STATUS_SET_CLEAR_INTERRUPT_ON_BREAK),
        ];
        assert(r@ =~= seq![
            RegisterWrite { address: SP_PC_REG, value: pc as u32 },
            RegisterWrite { address: SP_STATUS_REG, value: SP_STATUS_SET_CLEAR_HALT | SP_STATUS_SET_CLEAR_INTERRUPT | SP_STATUS_SET_CLEAR_INTERRUPT_ON_BREAK },
        ]);
        r
    }

    /// Starts a DMA of `length + 1` bytes from SPMEM address `spmem` to RDRAM address `to`.
    pub fn start_dma_sp_to_cpu(spmem: u32, to: u32, length: u32) -> (r: [RegisterWrite; 3])
        ensures
            r@ == seq![
                RegisterWrite { address: SP_SP_ADDRESS_REG, value: spmem },
                RegisterWrite { address: SP_DRAM_ADDRESS_REG, value: to },
                RegisterWrite { address: SP_WRITE_LENGTH_REG, value: length },
            ],
    {
        let r = [Self::set_sp_address(spmem), Self::set_dram_address(to), Self::set_write_length(length)];
        assert(r@ =~= seq![
            RegisterWrite { address: SP_SP_ADDRESS_REG, value: spmem },
            RegisterWrite { address: SP_DRAM_ADDRESS_REG, value: to },
            RegisterWrite { address: SP_WRITE_LENGTH_REG, value: length },
        ]);
        r
    }

    /// Starts a DMA of `length + 1` bytes from RDRAM address `from` to SPMEM address `spmem`.
    pub fn start_dma_cpu_to_sp(from: u32, spmem: u32, length: u32) -> (r: [RegisterWrite; 3])
        ensures
            r@ == seq![
                RegisterWrite { address: SP_SP_ADDRESS_REG, value: spmem },
                RegisterWrite { address: SP_DRAM_ADDRESS_REG, value: from },
                RegisterWrite { address: SP_READ_LENGTH_REG, value: length },
            ],
    {
        let r = [Self::set_sp_address(spmem), Self::set_dram_address(from), Self::set_read_length(length)];
        assert(r@ =~= seq![
            RegisterWrite { address: SP_SP_ADDRESS_REG, value: spmem },
            RegisterWrite { address: SP_DRAM_ADDRESS_REG, value: from },
            RegisterWrite { address: SP_READ_LENGTH_REG, value: length },
        ]);
        r
    }

    /// One step of waiting until the RSP is halted: whether the status value read says that it
    /// is.
    pub fn wait_until_rsp_is_halted(status: u32) -> (done: bool)
        ensures
            done == ((status & SP_STATUS_HALT) != 0),
    {
        (status & SP_STATUS_HALT) != 0
    }

    /// One step of waiting until the RSP is halted and no DMA is busy: whether the status value
    /// read says so.
    pub fn wait_until_rsp_is_halted_and_dma_completed(status: u32) -> (done: bool)
        ensures
            done == ((status & (SP_STATUS_DMA_BUSY | SP_STATUS_HALT)) == SP_STATUS_HALT),
    {
        (status & (SP_STATUS_DMA_BUSY | SP_STATUS_HALT)) == SP_STATUS_HALT
    }

    /// One step of waiting until no DMA is busy: whether the status value read says so.
    pub fn wait_until_dma_completed(status: u32) -> (done: bool)
        ensures
            done == ((status & SP_STATUS_DMA_BUSY) == 0),
    {
        (status & SP_STATUS_DMA_BUSY) == 0
    }

    /// The status bit that sets signal `i` (0 to 7) when written.
    pub fn get_set_signal_bit(i: u32) -> (r: u32)
        requires
            i < 8,
        ensures
            r == set_signal_bit(i),
    {
        1 << (10 + i * 2)
    }

    /// The status bit that clears signal `i` (0 to 7) when written.
    pub fn get_clear_signal_bit(i: u32) -> (r: u32)
        requires
            i < 8,
        ensures
            r == clear_signal_bit(i),
    {
        1 << (9 + i * 2)
    }

    /// The status bit that reads back signal `i` (0 to 7).
    pub fn get_is_signal_bit(i: u32) -> (r: u32)
        requires
            i < 8,
        ensures
            r == is_signal_bit(i),
    {
        1 << (7 + i)
    }

    /// Sets signal `i` (0 to 7).
    pub fn set_signal(i: u32) -> (r: RegisterWrite)
        requires
            i < 8,
        ensures
            r == (RegisterWrite { address: SP_STATUS_REG, value: set_signal_bit(i) }),
    {
        Self::set_status(Self::get_set_signal_bit(i))
    }

    /// Clears signal `i` (0 to 7).
    pub fn clear_signal(i: u32) -> (r: RegisterWrite)
        requires
            i < 8,
        ensures
            r == (RegisterWrite { address: SP_STATUS_REG, value: clear_signal_bit(i) }),
    {
        Self::set_status(Self::get_clear_signal_bit(i))
    }

    /// Whether signal `i` (0 to 7) is set, given the value read from the status register.
    pub fn is_signal(i: u32, status: u32) -> (r: bool)
        requires
            i < 8,
        ensures
            r == ((status & is_signal_bit(i)) != 0),
    {
        (status & Self::get_is_signal_bit(i)) != 0
    }

    /// Raises the SP interrupt.
    pub fn set_interrupt() -> (r: RegisterWrite)
        ensures
            r == (RegisterWrite { address: SP_STATUS_REG, value: SP_STATUS_SET_SET_INTERRUPT }),
    {
        Self::set_status(SP_STATUS_SET_SET_INTERRUPT)
    }

    /// Clears the SP interrupt.
    pub fn clear_interrupt() -> (r: RegisterWrite)
        ensures
            r == (RegisterWrite { address: SP_STATUS_REG, value: SP_STATUS_SET_CLEAR_INTERRUPT }),
    {
        Self::set_status(SP_STATUS_SET_CLEAR_INTERRUPT)
    }

    /// Makes a BREAK raise the SP interrupt.
    pub fn set_interrupt_on_break() -> (r: RegisterWrite)
        ensures
            r == (RegisterWrite { address: SP_STATUS_REG, value: SP_STATUS_SET_SET_INTERRUPT_ON_BREAK }),
    {
        Self::set_status(SP_STATUS_SET_SET_INTERRUPT_ON_BREAK)
    }

    /// Makes a BREAK not raise the SP interrupt.
    pub fn clear_interrupt_on_break() -> (r: RegisterWrite)
        ensures
            r == (RegisterWrite { address: SP_STATUS_REG, value: SP_STATUS_SET_CLEAR_INTERRUPT_ON_BREAK }),
    {
        Self::set_status(SP_STATUS_SET_CLEAR_INTERRUPT_ON_BREAK)
    }

    /// Whether a BREAK raises the SP interrupt, given the value read from the status register.
    pub fn is_interrupt_on_break(status: u32) -> (r: bool)
        ensures
            r == ((status & SP_STATUS_INTERRUPT_ON_BREAK) != 0),
    {
        (status & SP_STATUS_INTERRUPT_ON_BREAK) != 0
    }

    /// Clears the broke flag.
    pub fn clear_broke() -> (r: RegisterWrite)
        ensures
            r == (RegisterWrite { address: SP_STATUS_REG, value: SP_STATUS_SET_CLEAR_BROKE }),
    {
        Self::set_status(SP_STATUS_SET_CLEAR_BROKE)
    }

    /// Writes the semaphore register.
    pub fn set_semaphore(value: u32) -> (r: RegisterWrite)
        ensures
            r == (RegisterWrite { address: SP_SEMAPHORE_REG, value }),
    {
        RegisterWrite::new(SP_SEMAPHORE_REG, value)
    }
}

/// The bits that set and clear the eight signals, and the bits that read them back, are all
/// different: setting or clearing one signal never touches another, and the two bits of a signal
/// sit next to each other, the clear bit below the set bit.
pub proof fn lemma_signal_bits(i: u32, j: u32)
    requires
        i < 8,
        j < 8,
    ensures
        set_signal_bit(i) == clear_signal_bit(i) << 1u32,
        i != j ==> set_signal_bit(i) & set_signal_bit(j) == 0 && clear_signal_bit(i) & clear_signal_bit(j) == 0,
        set_signal_bit(i) & clear_signal_bit(j) == 0,
        i != j ==> is_signal_bit(i) & is_signal_bit(j) == 0,
{
    assert({
        &&& (1u32 << (10 + i * 2) as u32) == (1u32 << (9 + i * 2) as u32) << 1u32
        &&& i != j ==> (1u32 << (10 + i * 2) as u32) & (1u32 << (10 + j * 2) as u32) == 0
        &&& i != j ==> (1u32 << (9 + i * 2) as u32) & (1u32 << (9 + j * 2) as u32) == 0
        &&& (1u32 << (10 + i * 2) as u32) & (1u32 << (9 + j * 2) as u32) == 0
        &&& i != j ==> (1u32 << (7 + i) as u32) & (1u32 << (7 + j) as u32) == 0
    }) by (bit_vector)
        requires
            i < 8,
            j < 8;
}

/// The status register's signal bits: writing bit 10 + 2i sets signal i and bit 9 + 2i clears
/// it, and reading bit 7 + i tells whether it is set, for the eight signals 0 to 7.
pub proof fn lemma_signal_bit_table()
    ensures
        set_signal_bit(0) == 0x400u32,
        clear_signal_bit(0) == 0x200u32,
        is_signal_bit(0) == 0x80u32,
        set_signal_bit(1) == 0x1000u32,
        clear_signal_bit(1) == 0x800u32,
        is_signal_bit(1) == 0x100u32,
        set_signal_bit(2) == 0x4000u32,
        clear_signal_bit(2) == 0x2000u32,
        is_signal_bit(2) == 0x200u32,
        set_signal_bit(3) == 0x10000u32,
        clear_signal_bit(3) == 0x8000u32,
        is_signal_bit(3) == 0x400u32,
        set_signal_bit(4) == 0x40000u32,
        clear_signal_bit(4) == 0x20000u32,
        is_signal_bit(4) == 0x800u32,
        set_signal_bit(5) == 0x100000u32,
        clear_signal_bit(5) == 0x80000u32,
        is_signal_bit(5) == 0x1000u32,
        set_signal_bit(6) == 0x400000u32,
        clear_signal_bit(6) == 0x200000u32,
        is_signal_bit(6) == 0x2000u32,
        set_signal_bit(7) == 0x1000000u32,
        clear_signal_bit(7) == 0x800000u32,
        is_signal_bit(7) == 0x4000u32,
{
    assert({
        &&& set_signal_bit(0) == 0x400u32
        &&& clear_signal_bit(0) == 0x200u32
        &&& is_signal_bit(0) == 0x80u32
        &&& set_signal_bit(1) == 0x1000u32
        &&& clear_signal_bit(1) == 0x800u32
        &&& is_signal_bit(1) == 0x100u32
        &&& set_signal_bit(2) == 0x4000u32
        &&& clear_signal_bit(2) == 0x2000u32
        &&& is_signal_bit(2) == 0x200u32
        &&& set_signal_bit(3) == 0x10000u32
        &&& clear_signal_bit(3) == 0x8000u32
        &&& is_signal_bit(3) == 0x400u32
        &&& set_signal_bit(4) == 0x40000u32
        &&& clear_signal_bit(4) == 0x20000u32
        &&& is_signal_bit(4) == 0x800u32
        &&& set_signal_bit(5) == 0x100000u32
        &&& clear_signal_bit(5) == 0x80000u32
        &&& is_signal_bit(5) == 0x1000u32
        &&& set_signal_bit(6) == 0x400000u32
        &&& clear_signal_bit(6) == 0x200000u32
        &&& is_signal_bit(6) == 0x2000u32
        &&& set_signal_bit(7) == 0x1000000u32
        &&& clear_signal_bit(7) == 0x800000u32
        &&& is_signal_bit(7) == 0x4000u32
    }) by (bit_vector);
}

} // verus!
