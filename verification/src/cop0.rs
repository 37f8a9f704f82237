//! Coprocessor 0 of the VR4300: register numbers, the Status, Cause, Context and XContext
//! registers as bitfields, and the TLB entry words.

use vstd::prelude::*;

use crate::bits::{
    field32, field64, get_field32, get_field64, mask32, mask64, set_field32, set_field64, with_field32,
    with_field64,
};

verus! {

/// The number of a coprocessor 0 register.
#[derive(Clone, Copy, Debug, PartialEq, Eq, Structural)]
pub enum RegisterIndex {
    Index, Random, EntryLo0, EntryLo1, Context, PageMask, Wired, BadVAddr, Count, EntryHi,
    Compare, Status, Cause, ExceptPC, PRevID, Config, LLAddr, WatchLo, WatchHi, XContext, PErr,
    CacheErr, TagLo, TagHi, ErrorEPC,
}

impl RegisterIndex {
    /// The register number.
    pub open spec fn spec_value(&self) -> u32 {
        match *self {
            RegisterIndex::Index => 0x0,
            RegisterIndex::Random => 0x1,
            RegisterIndex::EntryLo0 => 0x2,
            RegisterIndex::EntryLo1 => 0x3,
            RegisterIndex::Context => 0x4,
            RegisterIndex::PageMask => 0x5,
            RegisterIndex::Wired => 0x6,
            RegisterIndex::BadVAddr => 0x8,
            RegisterIndex::Count => 0x9,
            RegisterIndex::EntryHi => 0xa,
            RegisterIndex::Compare => 0xb,
            RegisterIndex::Status => 0xc,
            RegisterIndex::Cause => 0xd,
            RegisterIndex::ExceptPC => 0xe,
            RegisterIndex::PRevID => 0xf,
            RegisterIndex::Config => 0x10,
            RegisterIndex::LLAddr => 0x11,
            RegisterIndex::WatchLo => 0x12,
            RegisterIndex::WatchHi => 0x13,
            RegisterIndex::XContext => 0x14,
            RegisterIndex::PErr => 0x1a,
            RegisterIndex::CacheErr => 0x1b,
            RegisterIndex::TagLo => 0x1c,
            RegisterIndex::TagHi => 0x1d,
            RegisterIndex::ErrorEPC => 0x1e,
        }
    }

    /// The register number.
    #[verifier::when_used_as_spec(spec_value)]
    pub fn value(&self) -> (r: u32)
        ensures
            r == self.spec_value(),
    {
        match self {
            RegisterIndex::Index => 0x0,
            RegisterIndex::Random => 0x1,
            RegisterIndex::EntryLo0 => 0x2,
            RegisterIndex::EntryLo1 => 0x3,
            RegisterIndex::Context => 0x4,
            RegisterIndex::PageMask => 0x5,
            RegisterIndex::Wired => 0x6,
            RegisterIndex::BadVAddr => 0x8,
            RegisterIndex::Count => 0x9,
            RegisterIndex::EntryHi => 0xa,
            RegisterIndex::Compare => 0xb,
            RegisterIndex::Status => 0xc,
            RegisterIndex::Cause => 0xd,
            RegisterIndex::ExceptPC => 0xe,
            RegisterIndex::PRevID => 0xf,
            RegisterIndex::Config => 0x10,
            RegisterIndex::LLAddr => 0x11,
            RegisterIndex::WatchLo => 0x12,
            RegisterIndex::WatchHi => 0x13,
            RegisterIndex::XContext => 0x14,
            RegisterIndex::PErr => 0x1a,
            RegisterIndex::CacheErr => 0x1b,
            RegisterIndex::TagLo => 0x1c,
            RegisterIndex::TagHi => 0x1d,
            RegisterIndex::ErrorEPC => 0x1e,
        }
    }
}

/// The privilege mode in Status.KSU.
#[derive(Clone, Copy, Debug, PartialEq, Eq, Structural)]
pub enum StatusKSU {
    Kernel, Supervisor, User,
}

impl StatusKSU {
    /// The two bit encoding.
    pub open spec fn spec_raw_value(&self) -> u8 {
        match *self {
            StatusKSU::Kernel => 0,
            StatusKSU::Supervisor => 1,
            StatusKSU::User => 2,
        }
    }

    /// The two bit encoding.
    #[verifier::when_used_as_spec(spec_raw_value)]
    pub fn raw_value(&self) -> (r: u8)
        ensures
            r == self.spec_raw_value(),
    {
        match self {
            StatusKSU::Kernel => 0,
            StatusKSU::Supervisor => 1,
            StatusKSU::User => 2,
        }
    }

    /// The mode that the two bit `value` encodes, if any.
    pub open spec fn spec_new_with_raw_value(value: u8) -> Option<StatusKSU> {
        if value == 0 {
            Some(StatusKSU::Kernel)
        } else if value == 1 {
            Some(StatusKSU::Supervisor)
        } else if value == 2 {
            Some(StatusKSU::User)
        } else {
            None
        }
    }

    /// The mode that the two bit `value` encodes, if any.
    pub fn new_with_raw_value(value: u8) -> (r: Option<StatusKSU>)
        ensures
            r == Self::spec_new_with_raw_value(value),
    {
        match value {
            0 => Some(StatusKSU::Kernel),
            1 => Some(StatusKSU::Supervisor),
            2 => Some(StatusKSU::User),
            _ => None,
        }
    }

    /// `new_with_raw_value` and `raw_value` undo each other: every value is found again from its number, and
    /// a number that stands for a value is that value's number.
    pub proof fn lemma_raw_value_roundtrip(self, value: u8)
        ensures
            Self::spec_new_with_raw_value(self.spec_raw_value()) == Some(self),
            Self::spec_new_with_raw_value(value) matches Some(e) ==> e.spec_raw_value() == value,
    {
    }
}

/// The exception code in Cause.ExcCode.
#[derive(Clone, Copy, Debug, PartialEq, Eq, Structural)]
pub enum CauseException {
    Int, Mod, TLBL, TLBS, AdEL, AdES, IBE, DBE, Sys, Bp, RI, CopUnusable, Ov, Tr, VirtualCoherencyInstructionFetch,
    FPE, Watch,
}

impl CauseException {
    /// The five bit exception code.
    pub open spec fn spec_raw_value(&self) -> u8 {
        match *self {
            CauseException::Int => 0,
            CauseException::Mod => 1,
            CauseException::TLBL => 2,
            CauseException::TLBS => 3,
            CauseException::AdEL => 4,
            CauseException::AdES => 5,
            CauseException::IBE => 6,
            CauseException::DBE => 7,
            CauseException::Sys => 8,
            CauseException::Bp => 9,
            CauseException::RI => 10,
            CauseException::CopUnusable => 11,
            CauseException::Ov => 12,
            CauseException::Tr => 13,
            CauseException::VirtualCoherencyInstructionFetch => 14,
            CauseException::FPE => 15,
            CauseException::Watch => 23,
        }
    }

    /// The five bit exception code.
    #[verifier::when_used_as_spec(spec_raw_value)]
    pub fn raw_value(&self) -> (r: u8)
        ensures
            r == self.spec_raw_value(),
    {
        match self {
            CauseException::Int => 0,
            CauseException::Mod => 1,
            CauseException::TLBL => 2,
            CauseException::TLBS => 3,
            CauseException::AdEL => 4,
            CauseException::AdES => 5,
            CauseException::IBE => 6,
            CauseException::DBE => 7,
            CauseException::Sys => 8,
            CauseException::Bp => 9,
            CauseException::RI => 10,
            CauseException::CopUnusable => 11,
            CauseException::Ov => 12,
            CauseException::Tr => 13,
            CauseException::VirtualCoherencyInstructionFetch => 14,
            CauseException::FPE => 15,
            CauseException::Watch => 23,
        }
    }

    /// The exception that the five bit code `value` stands for, if any.
    pub open spec fn spec_new_with_raw_value(value: u8) -> Option<CauseException> {
        if value == 0 {
            Some(CauseException::Int)
        } else if value == 1 {
            Some(CauseException::Mod)
        } else if value == 2 {
            Some(CauseException::TLBL)
        } else if value == 3 {
            Some(CauseException::TLBS)
        } else if value == 4 {
            Some(CauseException::AdEL)
        } else if value == 5 {
            Some(CauseException::AdES)
        } else if value == 6 {
            Some(CauseException::IBE)
        } else if value == 7 {
            Some(CauseException::DBE)
        } else if value == 8 {
            Some(CauseException::Sys)
        } else if value == 9 {
            Some(CauseException::Bp)
        } else if value == 10 {
            Some(CauseException::RI)
        } else if value == 11 {
            Some(CauseException::CopUnusable)
        } else if value == 12 {
            Some(CauseException::Ov)
        } else if value == 13 {
            Some(CauseException::Tr)
        } else if value == 14 {
            Some(CauseException::VirtualCoherencyInstructionFetch)
        } else if value == 15 {
            Some(CauseException::FPE)
        } else if value == 23 {
            Some(CauseException::Watch)
        } else {
            None
        }
    }

    /// The exception that the five bit code `value` stands for, if any.
    pub fn new_with_raw_value(value: u8) -> (r: Option<CauseException>)
        ensures
            r == Self::spec_new_with_raw_value(value),
    {
        match value {
            0 => Some(CauseException::Int),
            1 => Some(CauseException::Mod),
            2 => Some(CauseException::TLBL),
            3 => Some(CauseException::TLBS),
            4 => Some(CauseException::AdEL),
            5 => Some(CauseException::AdES),
            6 => Some(CauseException::IBE),
            7 => Some(CauseException::DBE),
            8 => Some(CauseException::Sys),
            9 => Some(CauseException::Bp),
            10 => Some(CauseException::RI),
            11 => Some(CauseException::CopUnusable),
            12 => Some(CauseException::Ov),
            13 => Some(CauseException::Tr),
            14 => Some(CauseException::VirtualCoherencyInstructionFetch),
            15 => Some(CauseException::FPE),
            23 => Some(CauseException::Watch),
            _ => None,
        }
    }

    /// `new_with_raw_value` and `raw_value` undo each other: every value is found again from its number, and
    /// a number that stands for a value is that value's number.
    pub proof fn lemma_raw_value_roundtrip(self, value: u8)
        ensures
            Self::spec_new_with_raw_value(self.spec_raw_value()) == Some(self),
            Self::spec_new_with_raw_value(value) matches Some(e) ==> e.spec_raw_value() == value,
    {
    }
}

/// The Cause register: why the last exception happened.
#[derive(Clone, Copy, Debug, PartialEq, Eq, Structural)]
pub struct Cause {
    pub raw_value: u32,
}

impl View for Cause {
    type V = u32;

    open spec fn view(&self) -> u32 {
        self.raw_value
    }
}

impl Cause {
    /// The value with every bit 0.
    pub fn new() -> (r: Self)
        ensures
            r@ == 0,
    {
        Self { raw_value: 0 }
    }

    /// The value with the given bits.
    pub fn new_with_raw_value(value: u32) -> (r: Self)
        ensures
            r@ == value,
    {
        Self { raw_value: value }
    }

    /// The bits of the value.
    pub fn raw_value(&self) -> (r: u32)
        ensures
            r == self@,
    {
        self.raw_value
    }

    /// The branch delay flag (bit 31).
    pub fn branch_delay(&self) -> (r: bool)
        ensures
            r == (field32(self@, 31, 1) == 1),
    {
        get_field32(self.raw_value, 31, 1) == 1
    }

    /// The value with the branch delay flag (bit 31) replaced.
    pub fn with_branch_delay(&self, field_value: bool) -> (r: Self)
        ensures
            r@ == set_field32(self@, 31, 1, if field_value { 1 } else { 0 }),
    {
        proof {
            crate::bits::lemma_mask32_values();
        }
        Self { raw_value: with_field32(self.raw_value, 31, 1, if field_value { 1 } else { 0 }) }
    }

    /// The coprocessor number of a coprocessor unusable exception (bits 28 to 29).
    pub fn coprocessor_error(&self) -> (r: u8)
        ensures
            r == field32(self@, 28, 2) as u8,
            r <= 0x3,
    {
        let v = get_field32(self.raw_value, 28, 2);
        proof {
            crate::bits::lemma_mask32_values();
        }
        v as u8
    }

    /// The value with the coprocessor number of a coprocessor unusable exception (bits 28 to 29) replaced; the new value must fit in 2 bits.
    pub fn with_coprocessor_error(&self, field_value: u8) -> (r: Self)
        requires
            field_value <= 0x3,
        ensures
            r@ == set_field32(self@, 28, 2, field_value as u32),
    {
        proof {
            crate::bits::lemma_mask32_values();
        }
        Self { raw_value: with_field32(self.raw_value, 28, 2, field_value as u32) }
    }

    /// The pending flag of interrupt compare (bit 15).
    pub fn interrupt_compare(&self) -> (r: bool)
        ensures
            r == (field32(self@, 15, 1) == 1),
    {
        get_field32(self.raw_value, 15, 1) == 1
    }

    /// The value with the pending flag of interrupt compare (bit 15) replaced.
    pub fn with_interrupt_compare(&self, field_value: bool) -> (r: Self)
        ensures
            r@ == set_field32(self@, 15, 1, if field_value { 1 } else { 0 }),
    {
        proof {
            crate::bits::lemma_mask32_values();
        }
        Self { raw_value: with_field32(self.raw_value, 15, 1, if field_value { 1 } else { 0 }) }
    }

    /// The pending flag of interrupt int4 (bit 14).
    pub fn interrupt_int4(&self) -> (r: bool)
        ensures
            r == (field32(self@, 14, 1) == 1),
    {
        get_field32(self.raw_value, 14, 1) == 1
    }

    /// The value with the pending flag of interrupt int4 (bit 14) replaced.
    pub fn with_interrupt_int4(&self, field_value: bool) -> (r: Self)
        ensures
            r@ == set_field32(self@, 14, 1, if field_value { 1 } else { 0 }),
    {
        proof {
            crate::bits::lemma_mask32_values();
        }
        Self { raw_value: with_field32(self.raw_value, 14, 1, if field_value { 1 } else { 0 }) }
    }

    /// The pending flag of interrupt int3 (bit 13).
    pub fn interrupt_int3(&self) -> (r: bool)
        ensures
            r == (field32(self@, 13, 1) == 1),
    {
        get_field32(self.raw_value, 13, 1) == 1
    }

    /// The value with the pending flag of interrupt int3 (bit 13) replaced.
    pub fn with_interrupt_int3(&self, field_value: bool) -> (r: Self)
        ensures
            r@ == set_field32(self@, 13, 1, if field_value { 1 } else { 0 }),
    {
        proof {
            crate::bits::lemma_mask32_values();
        }
        Self { raw_value: with_field32(self.raw_value, 13, 1, if field_value { 1 } else { 0 }) }
    }

    /// The pending flag of interrupt int2 (bit 12).
    pub fn interrupt_int2(&self) -> (r: bool)
        ensures
            r == (field32(self@, 12, 1) == 1),
    {
        get_field32(self.raw_value, 12, 1) == 1
    }

    /// The value with the pending flag of interrupt int2 (bit 12) replaced.
    pub fn with_interrupt_int2(&self, field_value: bool) -> (r: Self)
        ensures
            r@ == set_field32(self@, 12, 1, if field_value { 1 } else { 0 }),
    {
        proof {
            crate::bits::lemma_mask32_values();
        }
        Self { raw_value: with_field32(self.raw_value, 12, 1, if field_value { 1 } else { 0 }) }
    }

    /// The pending flag of interrupt int1 (bit 11).
    pub fn interrupt_int1(&self) -> (r: bool)
        ensures
            r == (field32(self@, 11, 1) == 1),
    {
        get_field32(self.raw_value, 11, 1) == 1
    }

    /// The value with the pending flag of interrupt int1 (bit 11) replaced.
    pub fn with_interrupt_int1(&self, field_value: bool) -> (r: Self)
        ensures
            r@ == set_field32(self@, 11, 1, if field_value { 1 } else { 0 }),
    {
        proof {
            crate::bits::lemma_mask32_values();
        }
        Self { raw_value: with_field32(self.raw_value, 11, 1, if field_value { 1 } else { 0 }) }
    }

    /// The pending flag of interrupt int0 (bit 10).
    pub fn interrupt_int0(&self) -> (r: bool)
        ensures
            r == (field32(self@, 10, 1) == 1),
    {
        get_field32(self.raw_value, 10, 1) == 1
    }

    /// The value with the pending flag of interrupt int0 (bit 10) replaced.
    pub fn with_interrupt_int0(&self, field_value: bool) -> (r: Self)
        ensures
            r@ == set_field32(self@, 10, 1, if field_value { 1 } else { 0 }),
    {
        proof {
            crate::bits::lemma_mask32_values();
        }
        Self { raw_value: with_field32(self.raw_value, 10, 1, if field_value { 1 } else { 0 }) }
    }

    /// The pending flag of interrupt sw2 (bit 9).
    pub fn interrupt_sw2(&self) -> (r: bool)
        ensures
            r == (field32(self@, 9, 1) == 1),
    {
        get_field32(self.raw_value, 9, 1) == 1
    }

    /// The value with the pending flag of interrupt sw2 (bit 9) replaced.
    pub fn with_interrupt_sw2(&self, field_value: bool) -> (r: Self)
        ensures
            r@ == set_field32(self@, 9, 1, if field_value { 1 } else { 0 }),
    {
        proof {
            crate::bits::lemma_mask32_values();
        }
        Self { raw_value: with_field32(self.raw_value, 9, 1, if field_value { 1 } else { 0 }) }
    }

    /// The pending flag of interrupt sw1 (bit 8).
    pub fn interrupt_sw1(&self) -> (r: bool)
        ensures
            r == (field32(self@, 8, 1) == 1),
    {
        get_field32(self.raw_value, 8, 1) == 1
    }

    /// The value with the pending flag of interrupt sw1 (bit 8) replaced.
    pub fn with_interrupt_sw1(&self, field_value: bool) -> (r: Self)
        ensures
            r@ == set_field32(self@, 8, 1, if field_value { 1 } else { 0 }),
    {
        proof {
            crate::bits::lemma_mask32_values();
        }
        Self { raw_value: with_field32(self.raw_value, 8, 1, if field_value { 1 } else { 0 }) }
    }

    /// The exception code (bits 2 to 6), if it holds a known value.
    pub fn exception(&self) -> (r: Option<CauseException>)
        ensures
            r == CauseException::spec_new_with_raw_value(field32(self@, 2, 5) as u8),
    {
        CauseException::new_with_raw_value(get_field32(self.raw_value, 2, 5) as u8)
    }

    /// The value with the exception code (bits 2 to 6) replaced.
    pub fn with_exception(&self, field_value: CauseException) -> (r: Self)
        ensures
            r@ == set_field32(self@, 2, 5, field_value.spec_raw_value() as u32),
    {
        proof {
            crate::bits::lemma_mask32_values();
        }
        Self { raw_value: with_field32(self.raw_value, 2, 5, field_value.raw_value() as u32) }
    }
}

/// The Status register.
#[derive(Clone, Copy, Debug, PartialEq, Eq, Structural)]
pub struct Status {
    pub raw_value: u32,
}

impl View for Status {
    type V = u32;

    open spec fn view(&self) -> u32 {
        self.raw_value
    }
}

impl Status {
    /// The value with every bit 0.
    pub fn new() -> (r: Self)
        ensures
            r@ == 0,
    {
        Self { raw_value: 0 }
    }

    /// The value with the given bits.
    pub fn new_with_raw_value(value: u32) -> (r: Self)
        ensures
            r@ == value,
    {
        Self { raw_value: value }
    }

    /// The bits of the value.
    pub fn raw_value(&self) -> (r: u32)
        ensures
            r == self@,
    {
        self.raw_value
    }

    /// The coprocessor 3 usable flag (bit 31).
    pub fn cop3usable(&self) -> (r: bool)
        ensures
            r == (field32(self@, 31, 1) == 1),
    {
        get_field32(self.raw_value, 31, 1) == 1
    }

    /// The value with the coprocessor 3 usable flag (bit 31) replaced.
    pub fn with_cop3usable(&self, field_value: bool) -> (r: Self)
        ensures
            r@ == set_field32(self@, 31, 1, if field_value { 1 } else { 0 }),
    {
        proof {
            crate::bits::lemma_mask32_values();
        }
        Self { raw_value: with_field32(self.raw_value, 31, 1, if field_value { 1 } else { 0 }) }
    }

    /// The coprocessor 2 usable flag (bit 30).
    pub fn cop2usable(&self) -> (r: bool)
        ensures
            r == (field32(self@, 30, 1) == 1),
    {
        get_field32(self.raw_value, 30, 1) == 1
    }

    /// The value with the coprocessor 2 usable flag (bit 30) replaced.
    pub fn with_cop2usable(&self, field_value: bool) -> (r: Self)
        ensures
            r@ == set_field32(self@, 30, 1, if field_value { 1 } else { 0 }),
    {
        proof {
            crate::bits::lemma_mask32_values();
        }
        Self { raw_value: with_field32(self.raw_value, 30, 1, if field_value { 1 } else { 0 }) }
    }

    /// The coprocessor 1 usable flag (bit 29).
    pub fn cop1usable(&self) -> (r: bool)
        ensures
            r == (field32(self@, 29, 1) == 1),
    {
        get_field32(self.raw_value, 29, 1) == 1
    }

    /// The value with the coprocessor 1 usable flag (bit 29) replaced.
    pub fn with_cop1usable(&self, field_value: bool) -> (r: Self)
        ensures
            r@ == set_field32(self@, 29, 1, if field_value { 1 } else { 0 }),
    {
        proof {
            crate::bits::lemma_mask32_values();
        }
        Self { raw_value: with_field32(self.raw_value, 29, 1, if field_value { 1 } else { 0 }) }
    }

    /// The coprocessor 0 usable flag (bit 28).
    pub fn cop0usable(&self) -> (r: bool)
        ensures
            r == (field32(self@, 28, 1) == 1),
    {
        get_field32(self.raw_value, 28, 1) == 1
    }

    /// The value with the coprocessor 0 usable flag (bit 28) replaced.
    pub fn with_cop0usable(&self, field_value: bool) -> (r: Self)
        ensures
            r@ == set_field32(self@, 28, 1, if field_value { 1 } else { 0 }),
    {
        proof {
            crate::bits::lemma_mask32_values();
        }
        Self { raw_value: with_field32(self.raw_value, 28, 1, if field_value { 1 } else { 0 }) }
    }

    /// The reduced power flag (bit 27).
    pub fn reduced_power(&self) -> (r: bool)
        ensures
            r == (field32(self@, 27, 1) == 1),
    {
        get_field32(self.raw_value, 27, 1) == 1
    }

    /// The value with the reduced power flag (bit 27) replaced.
    pub fn with_reduced_power(&self, field_value: bool) -> (r: Self)
        ensures
            r@ == set_field32(self@, 27, 1, if field_value { 1 } else { 0 }),
    {
        proof {
            crate::bits::lemma_mask32_values();
        }
        Self { raw_value: with_field32(self.raw_value, 27, 1, if field_value { 1 } else { 0 }) }
    }

    /// The 64 bit floating point register flag (bit 26).
    pub fn fpu64(&self) -> (r: bool)
        ensures
            r == (field32(self@, 26, 1) == 1),
    {
        get_field32(self.raw_value, 26, 1) == 1
    }

    /// The value with the 64 bit floating point register flag (bit 26) replaced.
    pub fn with_fpu64(&self, field_value: bool) -> (r: Self)
        ensures
            r@ == set_field32(self@, 26, 1, if field_value { 1 } else { 0 }),
    {
        proof {
            crate::bits::lemma_mask32_values();
        }
        Self { raw_value: with_field32(self.raw_value, 26, 1, if field_value { 1 } else { 0 }) }
    }

    /// The non-maskable interrupt flag (bit 19).
    pub fn nmi(&self) -> (r: bool)
        ensures
            r == (field32(self@, 19, 1) == 1),
    {
        get_field32(self.raw_value, 19, 1) == 1
    }

    /// The value with the non-maskable interrupt flag (bit 19) replaced.
    pub fn with_nmi(&self, field_value: bool) -> (r: Self)
        ensures
            r@ == set_field32(self@, 19, 1, if field_value { 1 } else { 0 }),
    {
        proof {
            crate::bits::lemma_mask32_values();
        }
        Self { raw_value: with_field32(self.raw_value, 19, 1, if field_value { 1 } else { 0 }) }
    }

    /// The mask flag of interrupt compare (bit 15).
    pub fn interrupt_mask_compare(&self) -> (r: bool)
        ensures
            r == (field32(self@, 15, 1) == 1),
    {
        get_field32(self.raw_value, 15, 1) == 1
    }

    /// The mask flag of interrupt int4 (bit 14).
    pub fn interrupt_mask_int4(&self) -> (r: bool)
        ensures
            r == (field32(self@, 14, 1) == 1),
    {
        get_field32(self.raw_value, 14, 1) == 1
    }

    /// The mask flag of interrupt int3 (bit 13).
    pub fn interrupt_mask_int3(&self) -> (r: bool)
        ensures
            r == (field32(self@, 13, 1) == 1),
    {
        get_field32(self.raw_value, 13, 1) == 1
    }

    /// The mask flag of interrupt int2 (bit 12).
    pub fn interrupt_mask_int2(&self) -> (r: bool)
        ensures
            r == (field32(self@, 12, 1) == 1),
    {
        get_field32(self.raw_value, 12, 1) == 1
    }

    /// The mask flag of interrupt int1 (bit 11).
    pub fn interrupt_mask_int1(&self) -> (r: bool)
        ensures
            r == (field32(self@, 11, 1) == 1),
    {
        get_field32(self.raw_value, 11, 1) == 1
    }

    /// The mask flag of interrupt int0 (bit 10).
    pub fn interrupt_mask_int0(&self) -> (r: bool)
        ensures
            r == (field32(self@, 10, 1) == 1),
    {
        get_field32(self.raw_value, 10, 1) == 1
    }

    /// The mask flag of interrupt sw2 (bit 9).
    pub fn interrupt_mask_sw2(&self) -> (r: bool)
        ensures
            r == (field32(self@, 9, 1) == 1),
    {
        get_field32(self.raw_value, 9, 1) == 1
    }

    /// The mask flag of interrupt sw1 (bit 8).
    pub fn interrupt_mask_sw1(&self) -> (r: bool)
        ensures
            r == (field32(self@, 8, 1) == 1),
    {
        get_field32(self.raw_value, 8, 1) == 1
    }

    /// The 64 bit kernel addressing flag (bit 7).
    pub fn kx(&self) -> (r: bool)
        ensures
            r == (field32(self@, 7, 1) == 1),
    {
        get_field32(self.raw_value, 7, 1) == 1
    }

    /// The value with the 64 bit kernel addressing flag (bit 7) replaced.
    pub fn with_kx(&self, field_value: bool) -> (r: Self)
        ensures
            r@ == set_field32(self@, 7, 1, if field_value { 1 } else { 0 }),
    {
        proof {
            crate::bits::lemma_mask32_values();
        }
        Self { raw_value: with_field32(self.raw_value, 7, 1, if field_value { 1 } else { 0 }) }
    }

    /// The 64 bit supervisor addressing flag (bit 6).
    pub fn sx(&self) -> (r: bool)
        ensures
            r == (field32(self@, 6, 1) == 1),
    {
        get_field32(self.raw_value, 6, 1) == 1
    }

    /// The value with the 64 bit supervisor addressing flag (bit 6) replaced.
    pub fn with_sx(&self, field_value: bool) -> (r: Self)
        ensures
            r@ == set_field32(self@, 6, 1, if field_value { 1 } else { 0 }),
    {
        proof {
            crate::bits::lemma_mask32_values();
        }
        Self { raw_value: with_field32(self.raw_value, 6, 1, if field_value { 1 } else { 0 }) }
    }

    /// The 64 bit user addressing flag (bit 5).
    pub fn ux(&self) -> (r: bool)
        ensures
            r == (field32(self@, 5, 1) == 1),
    {
        get_field32(self.raw_value, 5, 1) == 1
    }

    /// The value with the 64 bit user addressing flag (bit 5) replaced.
    pub fn with_ux(&self, field_value: bool) -> (r: Self)
        ensures
            r@ == set_field32(self@, 5, 1, if field_value { 1 } else { 0 }),
    {
        proof {
            crate::bits::lemma_mask32_values();
        }
        Self { raw_value: with_field32(self.raw_value, 5, 1, if field_value { 1 } else { 0 }) }
    }

    /// The privilege mode (bits 3 to 4), if it holds a known value.
    pub fn ksu(&self) -> (r: Option<StatusKSU>)
        ensures
            r == StatusKSU::spec_new_with_raw_value(field32(self@, 3, 2) as u8),
    {
        StatusKSU::new_with_raw_value(get_field32(self.raw_value, 3, 2) as u8)
    }

    /// The value with the privilege mode (bits 3 to 4) replaced.
    pub fn with_ksu(&self, field_value: StatusKSU) -> (r: Self)
        ensures
            r@ == set_field32(self@, 3, 2, field_value.spec_raw_value() as u32),
    {
        proof {
            crate::bits::lemma_mask32_values();
        }
        Self { raw_value: with_field32(self.raw_value, 3, 2, field_value.raw_value() as u32) }
    }

    /// The error level flag (bit 2).
    pub fn erl(&self) -> (r: bool)
        ensures
            r == (field32(self@, 2, 1) == 1),
    {
        get_field32(self.raw_value, 2, 1) == 1
    }

    /// The value with the error level flag (bit 2) replaced.
    pub fn with_erl(&self, field_value: bool) -> (r: Self)
        ensures
            r@ == set_field32(self@, 2, 1, if field_value { 1 } else { 0 }),
    {
        proof {
            crate::bits::lemma_mask32_values();
        }
        Self { raw_value: with_field32(self.raw_value, 2, 1, if field_value { 1 } else { 0 }) }
    }

    /// The exception level flag (bit 1).
    pub fn exl(&self) -> (r: bool)
        ensures
            r == (field32(self@, 1, 1) == 1),
    {
        get_field32(self.raw_value, 1, 1) == 1
    }

    /// The value with the exception level flag (bit 1) replaced.
    pub fn with_exl(&self, field_value: bool) -> (r: Self)
        ensures
            r@ == set_field32(self@, 1, 1, if field_value { 1 } else { 0 }),
    {
        proof {
            crate::bits::lemma_mask32_values();
        }
        Self { raw_value: with_field32(self.raw_value, 1, 1, if field_value { 1 } else { 0 }) }
    }

    /// The interrupt enable flag (bit 0).
    pub fn ie(&self) -> (r: bool)
        ensures
            r == (field32(self@, 0, 1) == 1),
    {
        get_field32(self.raw_value, 0, 1) == 1
    }

    /// The value with the interrupt enable flag (bit 0) replaced.
    pub fn with_ie(&self, field_value: bool) -> (r: Self)
        ensures
            r@ == set_field32(self@, 0, 1, if field_value { 1 } else { 0 }),
    {
        proof {
            crate::bits::lemma_mask32_values();
        }
        Self { raw_value: with_field32(self.raw_value, 0, 1, if field_value { 1 } else { 0 }) }
    }
}

/// The Context register, for 32 bit addressing.
#[derive(Clone, Copy, Debug, PartialEq, Eq, Structural)]
pub struct Context {
    pub raw_value: u64,
}

impl View for Context {
    type V = u64;

    open spec fn view(&self) -> u64 {
        self.raw_value
    }
}

impl Context {
    /// The value with every bit 0.
    pub fn new() -> (r: Self)
        ensures
            r@ == 0,
    {
        Self { raw_value: 0 }
    }

    /// The value with the given bits.
    pub fn new_with_raw_value(value: u64) -> (r: Self)
        ensures
            r@ == value,
    {
        Self { raw_value: value }
    }

    /// The bits of the value.
    pub fn raw_value(&self) -> (r: u64)
        ensures
            r == self@,
    {
        self.raw_value
    }

    /// The page table base (bits 23 to 63).
    pub fn pte_base(&self) -> (r: u64)
        ensures
            r == field64(self@, 23, 41) as u64,
            r <= 0x1ffffffffff,
    {
        let v = get_field64(self.raw_value, 23, 41);
        proof {
            crate::bits::lemma_mask64_values();
        }
        v as u64
    }

    /// The value with the page table base (bits 23 to 63) replaced; the new value must fit in 41 bits.
    pub fn with_pte_base(&self, field_value: u64) -> (r: Self)
        requires
            field_value <= 0x1ffffffffff,
        ensures
            r@ == set_field64(self@, 23, 41, field_value as u64),
    {
        proof {
            crate::bits::lemma_mask64_values();
        }
        Self { raw_value: with_field64(self.raw_value, 23, 41, field_value as u64) }
    }

    /// The virtual page pair of the failing address (bits 4 to 22).
    pub fn bad_vpn2(&self) -> (r: u32)
        ensures
            r == field64(self@, 4, 19) as u32,
            r <= 0x7ffff,
    {
        let v = get_field64(self.raw_value, 4, 19);
        proof {
            crate::bits::lemma_mask64_values();
        }
        v as u32
    }

    /// The value with the virtual page pair of the failing address (bits 4 to 22) replaced; the new value must fit in 19 bits.
    pub fn with_bad_vpn2(&self, field_value: u32) -> (r: Self)
        requires
            field_value <= 0x7ffff,
        ensures
            r@ == set_field64(self@, 4, 19, field_value as u64),
    {
        proof {
            crate::bits::lemma_mask64_values();
        }
        Self { raw_value: with_field64(self.raw_value, 4, 19, field_value as u64) }
    }
}

/// The XContext register, for 64 bit addressing.
#[derive(Clone, Copy, Debug, PartialEq, Eq, Structural)]
pub struct XContext {
    pub raw_value: u64,
}

impl View for XContext {
    type V = u64;

    open spec fn view(&self) -> u64 {
        self.raw_value
    }
}

impl XContext {
    /// The value with every bit 0.
    pub fn new() -> (r: Self)
        ensures
            r@ == 0,
    {
        Self { raw_value: 0 }
    }

    /// The value with the given bits.
    pub fn new_with_raw_value(value: u64) -> (r: Self)
        ensures
            r@ == value,
    {
        Self { raw_value: value }
    }

    /// The bits of the value.
    pub fn raw_value(&self) -> (r: u64)
        ensures
            r == self@,
    {
        self.raw_value
    }

    /// The page table base (bits 33 to 63).
    pub fn pte_base(&self) -> (r: u32)
        ensures
            r == field64(self@, 33, 31) as u32,
            r <= 0x7fffffff,
    {
        let v = get_field64(self.raw_value, 33, 31);
        proof {
            crate::bits::lemma_mask64_values();
        }
        v as u32
    }

    /// The value with the page table base (bits 33 to 63) replaced; the new value must fit in 31 bits.
    pub fn with_pte_base(&self, field_value: u32) -> (r: Self)
        requires
            field_value <= 0x7fffffff,
        ensures
            r@ == set_field64(self@, 33, 31, field_value as u64),
    {
        proof {
            crate::bits::lemma_mask64_values();
        }
        Self { raw_value: with_field64(self.raw_value, 33, 31, field_value as u64) }
    }

    /// The address region (bits 31 to 32).
    pub fn r(&self) -> (r: u8)
        ensures
            r == field64(self@, 31, 2) as u8,
            r <= 0x3,
    {
        let v = get_field64(self.raw_value, 31, 2);
        proof {
            crate::bits::lemma_mask64_values();
        }
        v as u8
    }

    /// The value with the address region (bits 31 to 32) replaced; the new value must fit in 2 bits.
    pub fn with_r(&self, field_value: u8) -> (r: Self)
        requires
            field_value <= 0x3,
        ensures
            r@ == set_field64(self@, 31, 2, field_value as u64),
    {
        proof {
            crate::bits::lemma_mask64_values();
        }
        Self { raw_value: with_field64(self.raw_value, 31, 2, field_value as u64) }
    }

    /// The virtual page pair of the failing address (bits 4 to 30).
    pub fn bad_vpn2(&self) -> (r: u32)
        ensures
            r == field64(self@, 4, 27) as u32,
            r <= 0x7ffffff,
    {
        let v = get_field64(self.raw_value, 4, 27);
        proof {
            crate::bits::lemma_mask64_values();
        }
        v as u32
    }

    /// The value with the virtual page pair of the failing address (bits 4 to 30) replaced; the new value must fit in 27 bits.
    pub fn with_bad_vpn2(&self, field_value: u32) -> (r: Self)
        requires
            field_value <= 0x7ffffff,
        ensures
            r@ == set_field64(self@, 4, 27, field_value as u64),
    {
        proof {
            crate::bits::lemma_mask64_values();
        }
        Self { raw_value: with_field64(self.raw_value, 4, 27, field_value as u64) }
    }
}

/// The Status value after a reset of the test suite: coprocessor 1 usable, 64 bit FPU registers.
pub open spec fn default_status_value() -> u32 {
    0x2400_0000
}

/// The default Status with 64 bit addressing for kernel, supervisor and user mode.
pub open spec fn addressing_mode_64_bit_value() -> u32 {
    0x2400_00E0
}

proof fn lemma_status_values()
    by (bit_vector)
    ensures
        set_field32(set_field32(0, 29, 1, 1), 26, 1, 1) == 0x2400_0000u32,
        set_field32(set_field32(set_field32(0x2400_0000, 7, 1, 1), 6, 1, 1), 5, 1, 1) == 0x2400_00E0u32,
{
}

proof fn lemma_context_values(a: u64)
    by (bit_vector)
    ensures
        set_field64(0, 4, 19, ((a >> 13u64) & 0x7FFFFu64)) == context_of_address(a),
        set_field64(set_field64(0, 4, 27, (a >> 13u64) & 0x7FF_FFFFu64), 31, 2, (a >> 62u64) & 3u64)
            == xcontext_of_address(a),
{
}

impl Status {
    /// The default Status value: coprocessor 1 usable and 64 bit FPU registers.
    pub fn default_status() -> (r: Status)
        ensures
            r@ == default_status_value(),
    {
        let r = Status::new().with_cop1usable(true).with_fpu64(true);
        proof {
            lemma_status_values();
        }
        r
    }

    /// The default Status value with 64 bit addressing for kernel, supervisor and user mode.
    pub fn addressing_mode_64_bit() -> (r: Status)
        ensures
            r@ == addressing_mode_64_bit_value(),
    {
        let r = Self::default_status().with_kx(true).with_sx(true).with_ux(true);
        proof {
            lemma_status_values();
        }
        r
    }
}

/// The Context value that a TLB miss at address `a` reports: BadVPN2 holds bits 13 to 31 of `a`.
pub open spec fn context_of_address(a: u64) -> u64 {
    ((a >> 13u64) & 0x7FFFFu64) << 4u64
}

/// The XContext value that a TLB miss at address `a` reports: BadVPN2 holds bits 13 to 39 of
/// `a` and R holds bits 62 and 63.
pub open spec fn xcontext_of_address(a: u64) -> u64 {
    (((a >> 13u64) & 0x7FF_FFFFu64) << 4u64) | (((a >> 62u64) & 3u64) << 31u64)
}

impl Context {
    /// The Context value that a TLB miss at address `a` reports.
    pub fn from_virtual_address(a: u64) -> (r: Self)
        ensures
            r@ == context_of_address(a),
    {
        let vpn2 = get_field64(a, 13, 19);
        proof {
            crate::bits::lemma_mask64_values();
        }
        let r = Self::new().with_bad_vpn2(vpn2 as u32);
        proof {
            lemma_context_values(a);
        }
        r
    }
}

impl XContext {
    /// The XContext value that a TLB miss at address `a` reports.
    pub fn from_virtual_address(a: u64) -> (r: Self)
        ensures
            r@ == xcontext_of_address(a),
    {
        let vpn2 = get_field64(a, 13, 27);
        let region = get_field64(a, 62, 2);
        proof {
            crate::bits::lemma_mask64_values();
        }
        let r = Self::new().with_bad_vpn2(vpn2 as u32).with_r(region as u8);
        proof {
            lemma_context_values(a);
        }
        r
    }
}

/// An EntryLo value: global, valid and dirty flags, the cache coherency mode and the page frame
/// number.
pub open spec fn entry_lo_word(global: bool, valid: bool, dirty: bool, coherency: u8, pfn: u32) -> u32 {
    (if global { 1u32 } else { 0u32 }) | ((if valid { 1u32 } else { 0u32 }) << 1u32)
        | ((if dirty { 1u32 } else { 0u32 }) << 2u32) | ((coherency as u32) << 3u32) | (pfn << 6u32)
}

/// An EntryHi value: address space id, virtual page pair number and region.
pub open spec fn entry_hi_word(asid: u8, vpn: u32, r: u8) -> u64 {
    (asid as u64) | ((vpn as u64) << 13u64) | ((r as u64) << 62u64)
}

/// Builds an EntryLo value. The coherency mode must fit in 3 bits and the page frame number in 24.
pub fn make_entry_lo(global: bool, valid: bool, dirty: bool, coherency: u8, pfn: u32) -> (r: u32)
    requires
        coherency <= 7,
        pfn <= 0xFFFFFF,
    ensures
        r == entry_lo_word(global, valid, dirty, coherency, pfn),
{
    (if global { 1u32 } else { 0u32 }) | ((if valid { 1u32 } else { 0u32 }) << 1u32)
        | ((if dirty { 1u32 } else { 0u32 }) << 2u32) | ((coherency as u32) << 3u32) | (pfn << 6u32)
}

/// Builds an EntryHi value. The virtual page pair number must fit in 27 bits and the region in 2.
pub fn make_entry_hi(asid: u8, vpn: u32, r: u8) -> (result: u64)
    requires
        vpn <= 0x7FF_FFFF,
        r <= 3,
    ensures
        result == entry_hi_word(asid, vpn, r),
{
    (asid as u64) | ((vpn as u64) << 13u64) | ((r as u64) << 62u64)
}

/// The Cause value that a coprocessor 2 unusable exception leaves: the exception code and
/// coprocessor number 2, nothing else.
pub open spec fn copindex2_cause_value() -> u32 {
    0x2000_002C
}

proof fn lemma_copindex2_cause_value()
    by (bit_vector)
    ensures
        set_field32(set_field32(0, 28, 2, 2), 2, 5, 11) == 0x2000_002Cu32,
{
}

/// Judges the Cause value that was read after firing a coprocessor 2 unusable exception: `Ok`
/// when it is exactly that exception with coprocessor number 2, and an error message otherwise.
pub fn preset_cause_to_copindex2_outcome(cause: Cause) -> (r: Result<(), String>)
    ensures
        r is Ok <==> cause@ == copindex2_cause_value(),
        r matches Err(message) ==> message@ == "Presetting Cause.copindex to 2 failed"@,
{
    let expected = Cause::new().with_coprocessor_error(2).with_exception(CauseException::CopUnusable);
    proof {
        lemma_copindex2_cause_value();
    }
    if cause.raw_value() != expected.raw_value() {
        return Err(String::from_str("Presetting Cause.copindex to 2 failed"));
    }
    Ok(())
}

/// The fields of an EntryLo value hold what it was built from.
pub proof fn lemma_entry_lo_fields(global: bool, valid: bool, dirty: bool, coherency: u8, pfn: u32)
    requires
        coherency <= 7,
        pfn <= 0xFFFFFF,
    ensures
        field32(entry_lo_word(global, valid, dirty, coherency, pfn), 0, 1) == (if global { 1u32 } else { 0u32 }),
        field32(entry_lo_word(global, valid, dirty, coherency, pfn), 1, 1) == (if valid { 1u32 } else { 0u32 }),
        field32(entry_lo_word(global, valid, dirty, coherency, pfn), 2, 1) == (if dirty { 1u32 } else { 0u32 }),
        field32(entry_lo_word(global, valid, dirty, coherency, pfn), 3, 3) == coherency as u32,
        field32(entry_lo_word(global, valid, dirty, coherency, pfn), 6, 26) == pfn,
{
    let g: u32 = if global { 1 } else { 0 };
    let v: u32 = if valid { 1 } else { 0 };
    let d: u32 = if dirty { 1 } else { 0 };
    let c = coherency as u32;
    assert({
        let w = g | (v << 1u32) | (d << 2u32) | (c << 3u32) | (pfn << 6u32);
        &&& field32(w, 0, 1) == g
        &&& field32(w, 1, 1) == v
        &&& field32(w, 2, 1) == d
        &&& field32(w, 3, 3) == c
        &&& field32(w, 6, 26) == pfn
    }) by (bit_vector)
        requires
            g <= 1,
            v <= 1,
            d <= 1,
            c <= 7,
            pfn <= 0xFFFFFF;
}

/// A TLB miss at an EntryHi address reports that entry's virtual page pair number and region in
/// XContext.
pub proof fn lemma_xcontext_of_entry_hi(asid: u8, vpn: u32, r: u8)
    requires
        vpn <= 0x7FF_FFFF,
        r <= 3,
    ensures
        field64(xcontext_of_address(entry_hi_word(asid, vpn, r)), 4, 27) == vpn as u64,
        field64(xcontext_of_address(entry_hi_word(asid, vpn, r)), 31, 2) == r as u64,
        field64(xcontext_of_address(entry_hi_word(asid, vpn, r)), 33, 31) == 0,
{
    let a = asid as u64;
    let v = vpn as u64;
    let rr = r as u64;
    assert({
        let x = xcontext_of_address(a | (v << 13u64) | (rr << 62u64));
        &&& field64(x, 4, 27) == v
        &&& field64(x, 31, 2) == rr
        &&& field64(x, 33, 31) == 0
    }) by (bit_vector)
        requires
            a <= 0xFF,
            v <= 0x7FF_FFFF,
            rr <= 3;
}

/// Each coprocessor 0 register has its VR4300 register number: Index 0, Random 1, ..., Status 12, Cause 13, ..., XContext 20, ..., ErrorEPC 30.
pub proof fn lemma_register_index_numbers()
    ensures
        RegisterIndex::Index.spec_value() == 0,
        RegisterIndex::Random.spec_value() == 1,
        RegisterIndex::EntryLo0.spec_value() == 2,
        RegisterIndex::EntryLo1.spec_value() == 3,
        RegisterIndex::Context.spec_value() == 4,
        RegisterIndex::PageMask.spec_value() == 5,
        RegisterIndex::Wired.spec_value() == 6,
        RegisterIndex::BadVAddr.spec_value() == 8,
        RegisterIndex::Count.spec_value() == 9,
        RegisterIndex::EntryHi.spec_value() == 10,
        RegisterIndex::Compare.spec_value() == 11,
        RegisterIndex::Status.spec_value() == 12,
        RegisterIndex::Cause.spec_value() == 13,
        RegisterIndex::ExceptPC.spec_value() == 14,
        RegisterIndex::PRevID.spec_value() == 15,
        RegisterIndex::Config.spec_value() == 16,
        RegisterIndex::LLAddr.spec_value() == 17,
        RegisterIndex::WatchLo.spec_value() == 18,
        RegisterIndex::WatchHi.spec_value() == 19,
        RegisterIndex::XContext.spec_value() == 20,
        RegisterIndex::PErr.spec_value() == 26,
        RegisterIndex::CacheErr.spec_value() == 27,
        RegisterIndex::TagLo.spec_value() == 28,
        RegisterIndex::TagHi.spec_value() == 29,
        RegisterIndex::ErrorEPC.spec_value() == 30,
{
}

/// The privilege modes have their two bit encodings: kernel 0, supervisor 1, user 2.
pub proof fn lemma_status_ksu_numbers()
    ensures
        StatusKSU::Kernel.spec_raw_value() == 0,
        StatusKSU::Supervisor.spec_raw_value() == 1,
        StatusKSU::User.spec_raw_value() == 2,
{
}

/// Each exception has its architectural ExcCode: Int 0, Mod 1, TLBL 2, ..., Ov 12, Tr 13, ..., FPE 15, Watch 23.
pub proof fn lemma_cause_exception_numbers()
    ensures
        CauseException::Int.spec_raw_value() == 0,
        CauseException::Mod.spec_raw_value() == 1,
        CauseException::TLBL.spec_raw_value() == 2,
        CauseException::TLBS.spec_raw_value() == 3,
        CauseException::AdEL.spec_raw_value() == 4,
        CauseException::AdES.spec_raw_value() == 5,
        CauseException::IBE.spec_raw_value() == 6,
        CauseException::DBE.spec_raw_value() == 7,
        CauseException::Sys.spec_raw_value() == 8,
        CauseException::Bp.spec_raw_value() == 9,
        CauseException::RI.spec_raw_value() == 10,
        CauseException::CopUnusable.spec_raw_value() == 11,
        CauseException::Ov.spec_raw_value() == 12,
        CauseException::Tr.spec_raw_value() == 13,
        CauseException::VirtualCoherencyInstructionFetch.spec_raw_value() == 14,
        CauseException::FPE.spec_raw_value() == 15,
        CauseException::Watch.spec_raw_value() == 23,
{
}

/// Where the fields of the COP0 values sit. EntryHi: the address space id in bits 0 to 7, the
/// virtual page pair number in 13 to 39 and the region in 62 and 63, the rest zero. Context:
/// BadVPN2 in bits 4 to 22 holds bits 13 to 31 of the address, the rest zero. XContext: BadVPN2
/// in bits 4 to 30 holds bits 13 to 39 of the address and R in bits 31 and 32 holds bits 62 and
/// 63, the rest zero. The default Status sets only CU1 (bit 29) and FR (bit 26), and 64 bit
/// addressing adds UX, SX and KX (bits 5 to 7). The Cause after a coprocessor 2 unusable
/// exception has coprocessor number 2 in bits 28 and 29 and ExcCode 11 in bits 2 to 6, the rest
/// zero.
pub proof fn lemma_cop0_value_fields(asid: u8, vpn: u32, r: u8, a: u64)
    requires
        vpn <= 0x7FF_FFFF,
        r <= 3,
    ensures
        field64(entry_hi_word(asid, vpn, r), 0, 8) == asid as u64,
        field64(entry_hi_word(asid, vpn, r), 8, 5) == 0,
        field64(entry_hi_word(asid, vpn, r), 13, 27) == vpn as u64,
        field64(entry_hi_word(asid, vpn, r), 40, 22) == 0,
        field64(entry_hi_word(asid, vpn, r), 62, 2) == r as u64,
        field64(context_of_address(a), 4, 19) == field64(a, 13, 19),
        field64(context_of_address(a), 0, 4) == 0,
        field64(context_of_address(a), 23, 41) == 0,
        field64(xcontext_of_address(a), 4, 27) == field64(a, 13, 27),
        field64(xcontext_of_address(a), 31, 2) == field64(a, 62, 2),
        field64(xcontext_of_address(a), 0, 4) == 0,
        field64(xcontext_of_address(a), 33, 31) == 0,
        field32(default_status_value(), 29, 1) == 1,
        field32(default_status_value(), 26, 1) == 1,
        default_status_value() & !0x2400_0000u32 == 0,
        addressing_mode_64_bit_value() == default_status_value() | (1u32 << 7u32) | (1u32 << 6u32) | (1u32 << 5u32),
        field32(copindex2_cause_value(), 28, 2) == 2,
        field32(copindex2_cause_value(), 2, 5) == CauseException::CopUnusable.spec_raw_value() as u32,
        copindex2_cause_value() & !0x3000_007Cu32 == 0,
{
    let aa = asid as u64;
    let v = vpn as u64;
    let rr = r as u64;
    assert({
        let h = aa | (v << 13u64) | (rr << 62u64);
        &&& field64(h, 0, 8) == aa
        &&& field64(h, 8, 5) == 0
        &&& field64(h, 13, 27) == v
        &&& field64(h, 40, 22) == 0
        &&& field64(h, 62, 2) == rr
        &&& field64(context_of_address(a), 4, 19) == field64(a, 13, 19)
        &&& field64(context_of_address(a), 0, 4) == 0
        &&& field64(context_of_address(a), 23, 41) == 0
        &&& field64(xcontext_of_address(a), 4, 27) == field64(a, 13, 27)
        &&& field64(xcontext_of_address(a), 31, 2) == field64(a, 62, 2)
        &&& field64(xcontext_of_address(a), 0, 4) == 0
        &&& field64(xcontext_of_address(a), 33, 31) == 0
        &&& field32(0x2400_0000u32, 29, 1) == 1
        &&& field32(0x2400_0000u32, 26, 1) == 1
        &&& 0x2400_0000u32 & !0x2400_0000u32 == 0
        &&& 0x2400_00E0u32 == 0x2400_0000u32 | (1u32 << 7u32) | (1u32 << 6u32) | (1u32 << 5u32)
        &&& field32(0x2000_002Cu32, 28, 2) == 2
        &&& field32(0x2000_002Cu32, 2, 5) == 11
        &&& 0x2000_002Cu32 & !0x3000_007Cu32 == 0
    }) by (bit_vector)
        requires
            aa <= 0xFF,
            v <= 0x7FF_FFFF,
            rr <= 3;
}

} // verus!
