//! The peripheral interface (PI): DMA between RDRAM and the cartridge bus.

use vstd::prelude::*;

use crate::bits::{field32, get_field32, mask32, set_field32, with_field32};
use crate::register::RegisterWrite;

verus! {

/// The address of the PI DRAM address register.
pub const PI_DRAM_ADDR: u32 = 0xA460_0000;

/// The address of the PI cartridge address register.
pub const PI_CART_ADDR: u32 = 0xA460_0004;

/// The address of the PI read length register.
pub const PI_RD_LEN: u32 = 0xA460_0008;

/// The address of the PI write length register.
pub const PI_WR_LEN: u32 = 0xA460_000C;

/// The address of the PI status register.
pub const PI_STATUS: u32 = 0xA460_0010;

/// The PI status register as read.
#[derive(Clone, Copy, Debug, PartialEq, Eq, Structural)]
pub struct PiStatusRead {
    pub raw_value: u32,
}

impl View for PiStatusRead {
    type V = u32;

    open spec fn view(&self) -> u32 {
        self.raw_value
    }
}

impl PiStatusRead {
    /// The value with every bit 0.
    pub fn new() -> (r: Self)
        ensures
            r@ == 0,
    {
        Self { raw_value: 0 }
    }

    /// The value with the given bits.
    pub fn new_with_raw_value(value: u32) -> (r: Self)
        ensures
            r@ == value,
    {
        Self { raw_value: value }
    }

    /// The bits of the value.
    pub fn raw_value(&self) -> (r: u32)
        ensures
            r == self@,
    {
        self.raw_value
    }

    /// The interrupt flag (bit 3).
    pub fn interrupt(&self) -> (r: bool)
        ensures
            r == (field32(self@, 3, 1) == 1),
    {
        get_field32(self.raw_value, 3, 1) == 1
    }

    /// The value with the interrupt flag (bit 3) replaced.
    pub fn with_interrupt(&self, field_value: bool) -> (r: Self)
        ensures
            r@ == set_field32(self@, 3, 1, if field_value { 1 } else { 0 }),
    {
        proof {
            crate::bits::lemma_mask32_values();
        }
        Self { raw_value: with_field32(self.raw_value, 3, 1, if field_value { 1 } else { 0 }) }
    }

    /// The error flag (bit 2).
    pub fn error(&self) -> (r: bool)
        ensures
            r == (field32(self@, 2, 1) == 1),
    {
        get_field32(self.raw_value, 2, 1) == 1
    }

    /// The value with the error flag (bit 2) replaced.
    pub fn with_error(&self, field_value: bool) -> (r: Self)
        ensures
            r@ == set_field32(self@, 2, 1, if field_value { 1 } else { 0 }),
    {
        proof {
            crate::bits::lemma_mask32_values();
        }
        Self { raw_value: with_field32(self.raw_value, 2, 1, if field_value { 1 } else { 0 }) }
    }

    /// The I/O busy flag (bit 1).
    pub fn io_busy(&self) -> (r: bool)
        ensures
            r == (field32(self@, 1, 1) == 1),
    {
        get_field32(self.raw_value, 1, 1) == 1
    }

    /// The value with the I/O busy flag (bit 1) replaced.
    pub fn with_io_busy(&self, field_value: bool) -> (r: Self)
        ensures
            r@ == set_field32(self@, 1, 1, if field_value { 1 } else { 0 }),
    {
        proof {
            crate::bits::lemma_mask32_values();
        }
        Self { raw_value: with_field32(self.raw_value, 1, 1, if field_value { 1 } else { 0 }) }
    }

    /// The DMA busy flag (bit 0).
    pub fn dma_busy(&self) -> (r: bool)
        ensures
            r == (field32(self@, 0, 1) == 1),
    {
        get_field32(self.raw_value, 0, 1) == 1
    }

    /// The value with the DMA busy flag (bit 0) replaced.
    pub fn with_dma_busy(&self, field_value: bool) -> (r: Self)
        ensures
            r@ == set_field32(self@, 0, 1, if field_value { 1 } else { 0 }),
    {
        proof {
            crate::bits::lemma_mask32_values();
        }
        Self { raw_value: with_field32(self.raw_value, 0, 1, if field_value { 1 } else { 0 }) }
    }
}

/// A value to write to the PI status register.
#[derive(Clone, Copy, Debug, PartialEq, Eq, Structural)]
pub struct PiStatusWrite {
    pub raw_value: u32,
}

impl View for PiStatusWrite {
    type V = u32;

    open spec fn view(&self) -> u32 {
        self.raw_value
    }
}

impl PiStatusWrite {
    /// The value with every bit 0.
    pub fn new() -> (r: Self)
        ensures
            r@ == 0,
    {
        Self { raw_value: 0 }
    }

    /// The value with the given bits.
    pub fn new_with_raw_value(value: u32) -> (r: Self)
        ensures
            r@ == value,
    {
        Self { raw_value: value }
    }

    /// The bits of the value.
    pub fn raw_value(&self) -> (r: u32)
        ensures
            r == self@,
    {
        self.raw_value
    }

    /// The value with the flag that clears the interrupt (bit 1) replaced.
    pub fn with_clear_interrupt(&self, field_value: bool) -> (r: Self)
        ensures
            r@ == set_field32(self@, 1, 1, if field_value { 1 } else { 0 }),
    {
        proof {
            crate::bits::lemma_mask32_values();
        }
        Self { raw_value: with_field32(self.raw_value, 1, 1, if field_value { 1 } else { 0 }) }
    }

    /// The value with the flag that resets the controller (bit 0) replaced.
    pub fn with_reset(&self, field_value: bool) -> (r: Self)
        ensures
            r@ == set_field32(self@, 0, 1, if field_value { 1 } else { 0 }),
    {
        proof {
            crate::bits::lemma_mask32_values();
        }
        Self { raw_value: with_field32(self.raw_value, 0, 1, if field_value { 1 } else { 0 }) }
    }
}

pub struct Pi {}

impl Pi {
    /// Sets the RDRAM address of the next DMA.
    pub fn set_dram_address(value: u32) -> (r: RegisterWrite)
        ensures
            r == (RegisterWrite { address: PI_DRAM_ADDR, value }),
    {
        RegisterWrite::new(PI_DRAM_ADDR, value)
    }

    /// Sets the cartridge address of the next DMA.
    pub fn set_cart_address(value: u32) -> (r: RegisterWrite)
        ensures
            r == (RegisterWrite { address: PI_CART_ADDR, value }),
    {
        RegisterWrite::new(PI_CART_ADDR, value)
    }

    /// Starts a DMA from the cartridge to RDRAM of `value + 1` bytes.
    pub fn set_read_length(value: u32) -> (r: RegisterWrite)
        ensures
            r == (RegisterWrite { address: PI_RD_LEN, value }),
    {
        RegisterWrite::new(PI_RD_LEN, value)
    }

    /// Starts a DMA from RDRAM to the cartridge of `value + 1` bytes.
    pub fn set_write_length(value: u32) -> (r: RegisterWrite)
        ensures
            r == (RegisterWrite { address: PI_WR_LEN, value }),
    {
        RegisterWrite::new(PI_WR_LEN, value)
    }

    /// Writes the status register.
    pub fn set_status(value: PiStatusWrite) -> (r: RegisterWrite)
        ensures
            r == (RegisterWrite { address: PI_STATUS, value: value@ }),
    {
        RegisterWrite::new(PI_STATUS, value.raw_value())
    }

    /// The status, given the value read from the status register.
    pub fn status(raw_value: u32) -> (r: PiStatusRead)
        ensures
            r@ == raw_value,
    {
        PiStatusRead::new_with_raw_value(raw_value)
    }
}

} // verus!
