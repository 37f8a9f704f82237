//! The MIPS interface (MI): interrupt mask and pending interrupts.

use vstd::prelude::*;

use crate::bits::{field32, get_field32, mask32, set_field32, with_field32};
use crate::register::RegisterWrite;

verus! {

/// The address of the MI interrupt register.
pub const MI_INTERRUPT_REG: u32 = 0xA430_0008;

/// The address of the MI interrupt mask register.
pub const MI_INTERRUPT_MASK_REG: u32 = 0xA430_000C;

/// A value to write to the MI interrupt mask register: each interrupt has a set and a clear
/// flag.
#[derive(Clone, Copy, Debug, PartialEq, Eq, Structural)]
pub struct InterruptMaskWrite {
    pub raw_value: u32,
}

impl View for InterruptMaskWrite {
    type V = u32;

    open spec fn view(&self) -> u32 {
        self.raw_value
    }
}

impl InterruptMaskWrite {
    /// The value with every bit 0.
    pub fn new() -> (r: Self)
        ensures
            r@ == 0,
    {
        Self { raw_value: 0 }
    }

    /// The value with the given bits.
    pub fn new_with_raw_value(value: u32) -> (r: Self)
        ensures
            r@ == value,
    {
        Self { raw_value: value }
    }

    /// The bits of the value.
    pub fn raw_value(&self) -> (r: u32)
        ensures
            r == self@,
    {
        self.raw_value
    }

    /// The value with the flag that unmasks the DP interrupt (bit 11) replaced.
    pub fn with_setDP(&self, field_value: bool) -> (r: Self)
        ensures
            r@ == set_field32(self@, 11, 1, if field_value { 1 } else { 0 }),
    {
        proof {
            crate::bits::lemma_mask32_values();
        }
        Self { raw_value: with_field32(self.raw_value, 11, 1, if field_value { 1 } else { 0 }) }
    }

    /// The value with the flag that masks the DP interrupt (bit 10) replaced.
    pub fn with_clearDP(&self, field_value: bool) -> (r: Self)
        ensures
            r@ == set_field32(self@, 10, 1, if field_value { 1 } else { 0 }),
    {
        proof {
            crate::bits::lemma_mask32_values();
        }
        Self { raw_value: with_field32(self.raw_value, 10, 1, if field_value { 1 } else { 0 }) }
    }

    /// The value with the flag that unmasks the PI interrupt (bit 9) replaced.
    pub fn with_setPI(&self, field_value: bool) -> (r: Self)
        ensures
            r@ == set_field32(self@, 9, 1, if field_value { 1 } else { 0 }),
    {
        proof {
            crate::bits::lemma_mask32_values();
        }
        Self { raw_value: with_field32(self.raw_value, 9, 1, if field_value { 1 } else { 0 }) }
    }

    /// The value with the flag that masks the PI interrupt (bit 8) replaced.
    pub fn with_clearPI(&self, field_value: bool) -> (r: Self)
        ensures
            r@ == set_field32(self@, 8, 1, if field_value { 1 } else { 0 }),
    {
        proof {
            crate::bits::lemma_mask32_values();
        }
        Self { raw_value: with_field32(self.raw_value, 8, 1, if field_value { 1 } else { 0 }) }
    }

    /// The value with the flag that unmasks the VI interrupt (bit 7) replaced.
    pub fn with_setVI(&self, field_value: bool) -> (r: Self)
        ensures
            r@ == set_field32(self@, 7, 1, if field_value { 1 } else { 0 }),
    {
        proof {
            crate::bits::lemma_mask32_values();
        }
        Self { raw_value: with_field32(self.raw_value, 7, 1, if field_value { 1 } else { 0 }) }
    }

    /// The value with the flag that masks the VI interrupt (bit 6) replaced.
    pub fn with_clearVI(&self, field_value: bool) -> (r: Self)
        ensures
            r@ == set_field32(self@, 6, 1, if field_value { 1 } else { 0 }),
    {
        proof {
            crate::bits::lemma_mask32_values();
        }
        Self { raw_value: with_field32(self.raw_value, 6, 1, if field_value { 1 } else { 0 }) }
    }

    /// The value with the flag that unmasks the AI interrupt (bit 5) replaced.
    pub fn with_setAI(&self, field_value: bool) -> (r: Self)
        ensures
            r@ == set_field32(self@, 5, 1, if field_value { 1 } else { 0 }),
    {
        proof {
            crate::bits::lemma_mask32_values();
        }
        Self { raw_value: with_field32(self.raw_value, 5, 1, if field_value { 1 } else { 0 }) }
    }

    /// The value with the flag that masks the AI interrupt (bit 4) replaced.
    pub fn with_clearAI(&self, field_value: bool) -> (r: Self)
        ensures
            r@ == set_field32(self@, 4, 1, if field_value { 1 } else { 0 }),
    {
        proof {
            crate::bits::lemma_mask32_values();
        }
        Self { raw_value: with_field32(self.raw_value, 4, 1, if field_value { 1 } else { 0 }) }
    }

    /// The value with the flag that unmasks the SI interrupt (bit 3) replaced.
    pub fn with_setSI(&self, field_value: bool) -> (r: Self)
        ensures
            r@ == set_field32(self@, 3, 1, if field_value { 1 } else { 0 }),
    {
        proof {
            crate::bits::lemma_mask32_values();
        }
        Self { raw_value: with_field32(self.raw_value, 3, 1, if field_value { 1 } else { 0 }) }
    }

    /// The value with the flag that masks the SI interrupt (bit 2) replaced.
    pub fn with_clearSI(&self, field_value: bool) -> (r: Self)
        ensures
            r@ == set_field32(self@, 2, 1, if field_value { 1 } else { 0 }),
    {
        proof {
            crate::bits::lemma_mask32_values();
        }
        Self { raw_value: with_field32(self.raw_value, 2, 1, if field_value { 1 } else { 0 }) }
    }

    /// The value with the flag that unmasks the SP interrupt (bit 1) replaced.
    pub fn with_setSP(&self, field_value: bool) -> (r: Self)
        ensures
            r@ == set_field32(self@, 1, 1, if field_value { 1 } else { 0 }),
    {
        proof {
            crate::bits::lemma_mask32_values();
        }
        Self { raw_value: with_field32(self.raw_value, 1, 1, if field_value { 1 } else { 0 }) }
    }

    /// The value with the flag that masks the SP interrupt (bit 0) replaced.
    pub fn with_clearSP(&self, field_value: bool) -> (r: Self)
        ensures
            r@ == set_field32(self@, 0, 1, if field_value { 1 } else { 0 }),
    {
        proof {
            crate::bits::lemma_mask32_values();
        }
        Self { raw_value: with_field32(self.raw_value, 0, 1, if field_value { 1 } else { 0 }) }
    }
}

/// The MI interrupt or interrupt mask register, one flag per interface.
#[derive(Clone, Copy, Debug, PartialEq, Eq, Structural)]
pub struct Interrupt {
    pub raw_value: u32,
}

impl View for Interrupt {
    type V = u32;

    open spec fn view(&self) -> u32 {
        self.raw_value
    }
}

impl Interrupt {
    /// The value with every bit 0.
    pub fn new() -> (r: Self)
        ensures
            r@ == 0,
    {
        Self { raw_value: 0 }
    }

    /// The value with the given bits.
    pub fn new_with_raw_value(value: u32) -> (r: Self)
        ensures
            r@ == value,
    {
        Self { raw_value: value }
    }

    /// The bits of the value.
    pub fn raw_value(&self) -> (r: u32)
        ensures
            r == self@,
    {
        self.raw_value
    }

    /// The DP interrupt flag (bit 5).
    pub fn dp(&self) -> (r: bool)
        ensures
            r == (field32(self@, 5, 1) == 1),
    {
        get_field32(self.raw_value, 5, 1) == 1
    }

    /// The value with the DP interrupt flag (bit 5) replaced.
    pub fn with_dp(&self, field_value: bool) -> (r: Self)
        ensures
            r@ == set_field32(self@, 5, 1, if field_value { 1 } else { 0 }),
    {
        proof {
            crate::bits::lemma_mask32_values();
        }
        Self { raw_value: with_field32(self.raw_value, 5, 1, if field_value { 1 } else { 0 }) }
    }

    /// The PI interrupt flag (bit 4).
    pub fn pi(&self) -> (r: bool)
        ensures
            r == (field32(self@, 4, 1) == 1),
    {
        get_field32(self.raw_value, 4, 1) == 1
    }

    /// The value with the PI interrupt flag (bit 4) replaced.
    pub fn with_pi(&self, field_value: bool) -> (r: Self)
        ensures
            r@ == set_field32(self@, 4, 1, if field_value { 1 } else { 0 }),
    {
        proof {
            crate::bits::lemma_mask32_values();
        }
        Self { raw_value: with_field32(self.raw_value, 4, 1, if field_value { 1 } else { 0 }) }
    }

    /// The VI interrupt flag (bit 3).
    pub fn vi(&self) -> (r: bool)
        ensures
            r == (field32(self@, 3, 1) == 1),
    {
        get_field32(self.raw_value, 3, 1) == 1
    }

    /// The value with the VI interrupt flag (bit 3) replaced.
    pub fn with_vi(&self, field_value: bool) -> (r: Self)
        ensures
            r@ == set_field32(self@, 3, 1, if field_value { 1 } else { 0 }),
    {
        proof {
            crate::bits::lemma_mask32_values();
        }
        Self { raw_value: with_field32(self.raw_value, 3, 1, if field_value { 1 } else { 0 }) }
    }

    /// The AI interrupt flag (bit 2).
    pub fn ai(&self) -> (r: bool)
        ensures
            r == (field32(self@, 2, 1) == 1),
    {
        get_field32(self.raw_value, 2, 1) == 1
    }

    /// The value with the AI interrupt flag (bit 2) replaced.
    pub fn with_ai(&self, field_value: bool) -> (r: Self)
        ensures
            r@ == set_field32(self@, 2, 1, if field_value { 1 } else { 0 }),
    {
        proof {
            crate::bits::lemma_mask32_values();
        }
        Self { raw_value: with_field32(self.raw_value, 2, 1, if field_value { 1 } else { 0 }) }
    }

    /// The SI interrupt flag (bit 1).
    pub fn si(&self) -> (r: bool)
        ensures
            r == (field32(self@, 1, 1) == 1),
    {
        get_field32(self.raw_value, 1, 1) == 1
    }

    /// The value with the SI interrupt flag (bit 1) replaced.
    pub fn with_si(&self, field_value: bool) -> (r: Self)
        ensures
            r@ == set_field32(self@, 1, 1, if field_value { 1 } else { 0 }),
    {
        proof {
            crate::bits::lemma_mask32_values();
        }
        Self { raw_value: with_field32(self.raw_value, 1, 1, if field_value { 1 } else { 0 }) }
    }

    /// The SP interrupt flag (bit 0).
    pub fn sp(&self) -> (r: bool)
        ensures
            r == (field32(self@, 0, 1) == 1),
    {
        get_field32(self.raw_value, 0, 1) == 1
    }

    /// The value with the SP interrupt flag (bit 0) replaced.
    pub fn with_sp(&self, field_value: bool) -> (r: Self)
        ensures
            r@ == set_field32(self@, 0, 1, if field_value { 1 } else { 0 }),
    {
        proof {
            crate::bits::lemma_mask32_values();
        }
        Self { raw_value: with_field32(self.raw_value, 0, 1, if field_value { 1 } else { 0 }) }
    }
}

proof fn lemma_clear_all_value()
    by (bit_vector)
    ensures
        set_field32(set_field32(set_field32(set_field32(set_field32(set_field32(0, 10, 1, 1), 8, 1, 1), 6, 1, 1), 4, 1, 1), 2, 1, 1), 0, 1, 1) == 0x555u32,
{
}

/// Writes `value` to the interrupt mask register.
pub fn set_interrupt_mask(value: InterruptMaskWrite) -> (r: RegisterWrite)
    ensures
        r == (RegisterWrite { address: MI_INTERRUPT_MASK_REG, value: value@ }),
{
    RegisterWrite::new(MI_INTERRUPT_MASK_REG, value.raw_value())
}

/// Masks every interrupt: the clear flag of each interface is set.
pub fn clear_interrupt_mask() -> (r: RegisterWrite)
    ensures
        r == (RegisterWrite { address: MI_INTERRUPT_MASK_REG, value: 0x555 }),
{
    let mask = InterruptMaskWrite::new()
        .with_clearDP(true)
        .with_clearPI(true)
        .with_clearVI(true)
        .with_clearAI(true)
        .with_clearSI(true)
        .with_clearSP(true);
    proof {
        lemma_clear_all_value();
    }
    set_interrupt_mask(mask)
}

/// Whether the SP interrupt is pending, given the value of the interrupt register.
pub fn is_sp_interrupt(interrupt_register: u32) -> (r: bool)
    ensures
        r == (field32(interrupt_register, 0, 1) == 1),
{
    Interrupt::new_with_raw_value(interrupt_register).sp()
}

} // verus!
