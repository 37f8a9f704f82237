//! Encoders for a few VR4300 (main CPU) instruction formats, used to build instructions at run
//! time.

use vstd::prelude::*;

verus! {

/// A major opcode (bits 26 to 31).
#[derive(Clone, Copy, Debug, PartialEq, Eq, Structural)]
pub enum Opcode {
    SPECIAL, REGIMM, J, JAL, BEQ, BNE, BLEZ, BGTZ, ADDI, ADDIU, SLTI, SLTIU, ANDI, ORI, XORI,
    LUI, COP0, COP1, BEQL, BNEL, BLEZL, BGTZL, DADDI, DADDIU, LDL, LDR, LB, LH, LWL, LW, LBU,
    LHU, LWR, LWU, SB, SH, SWL, SW, SDL, SDR, SWR, CACHE, LL, LWC1, LLD, LDC1, LD, SC, SWC1,
    SCD, SDC1, SD,
}

impl Opcode {
    /// The opcode number.
    pub open spec fn spec_value(&self) -> u32 {
        match *self {
            Opcode::SPECIAL => 0,
            Opcode::REGIMM => 1,
            Opcode::J => 2,
            Opcode::JAL => 3,
            Opcode::BEQ => 4,
            Opcode::BNE => 5,
            Opcode::BLEZ => 6,
            Opcode::BGTZ => 7,
            Opcode::ADDI => 8,
            Opcode::ADDIU => 9,
            Opcode::SLTI => 10,
            Opcode::SLTIU => 11,
            Opcode::ANDI => 12,
            Opcode::ORI => 13,
            Opcode::XORI => 14,
            Opcode::LUI => 15,
            Opcode::COP0 => 16,
            Opcode::COP1 => 17,
            Opcode::BEQL => 20,
            Opcode::BNEL => 21,
            Opcode::BLEZL => 22,
            Opcode::BGTZL => 23,
            Opcode::DADDI => 24,
            Opcode::DADDIU => 25,
            Opcode::LDL => 26,
            Opcode::LDR => 27,
            Opcode::LB => 32,
            Opcode::LH => 33,
            Opcode::LWL => 34,
            Opcode::LW => 35,
            Opcode::LBU => 36,
            Opcode::LHU => 37,
            Opcode::LWR => 38,
            Opcode::LWU => 39,
            Opcode::SB => 40,
            Opcode::SH => 41,
            Opcode::SWL => 42,
            Opcode::SW => 43,
            Opcode::SDL => 44,
            Opcode::SDR => 45,
            Opcode::SWR => 46,
            Opcode::CACHE => 47,
            Opcode::LL => 48,
            Opcode::LWC1 => 49,
            Opcode::LLD => 52,
            Opcode::LDC1 => 53,
            Opcode::LD => 55,
            Opcode::SC => 56,
            Opcode::SWC1 => 57,
            Opcode::SCD => 60,
            Opcode::SDC1 => 61,
            Opcode::SD => 63,
        }
    }

    /// The opcode number.
    #[verifier::when_used_as_spec(spec_value)]
    pub fn value(&self) -> (r: u32)
        ensures
            r == self.spec_value(),
    {
        match self {
            Opcode::SPECIAL => 0,
            Opcode::REGIMM => 1,
            Opcode::J => 2,
            Opcode::JAL => 3,
            Opcode::BEQ => 4,
            Opcode::BNE => 5,
            Opcode::BLEZ => 6,
            Opcode::BGTZ => 7,
            Opcode::ADDI => 8,
            Opcode::ADDIU => 9,
            Opcode::SLTI => 10,
            Opcode::SLTIU => 11,
            Opcode::ANDI => 12,
            Opcode::ORI => 13,
            Opcode::XORI => 14,
            Opcode::LUI => 15,
            Opcode::COP0 => 16,
            Opcode::COP1 => 17,
            Opcode::BEQL => 20,
            Opcode::BNEL => 21,
            Opcode::BLEZL => 22,
            Opcode::BGTZL => 23,
            Opcode::DADDI => 24,
            Opcode::DADDIU => 25,
            Opcode::LDL => 26,
            Opcode::LDR => 27,
            Opcode::LB => 32,
            Opcode::LH => 33,
            Opcode::LWL => 34,
            Opcode::LW => 35,
            Opcode::LBU => 36,
            Opcode::LHU => 37,
            Opcode::LWR => 38,
            Opcode::LWU => 39,
            Opcode::SB => 40,
            Opcode::SH => 41,
            Opcode::SWL => 42,
            Opcode::SW => 43,
            Opcode::SDL => 44,
            Opcode::SDR => 45,
            Opcode::SWR => 46,
            Opcode::CACHE => 47,
            Opcode::LL => 48,
            Opcode::LWC1 => 49,
            Opcode::LLD => 52,
            Opcode::LDC1 => 53,
            Opcode::LD => 55,
            Opcode::SC => 56,
            Opcode::SWC1 => 57,
            Opcode::SCD => 60,
            Opcode::SDC1 => 61,
            Opcode::SD => 63,
        }
    }
}

/// The function code of a SPECIAL instruction (bits 0 to 5).
#[derive(Clone, Copy, Debug, PartialEq, Eq, Structural)]
pub enum SpecialOpcode {
    SLL, SRL, SRA, SLLV, SRLV, SRAV, JR, JALR, SYSCALL, BREAK, SYNC, MFHI, MTHI, MFLO, MTLO,
    DSLLV, DSRLV, DSRAV, MULT, MULTU, DIV, DIVU, DMULT, DMULTU, DDIV, DDIVU, ADD, ADDU, SUB,
    SUBU, AND, OR, XOR, NOR, SLT, SLTU, DADD, DADDU, DSUB, DSUBU, TGE, TGEU, TLT, TLTU, TEQ,
    TNE, DSLL, DSRL, DSRA, DSLL32, DSRL32, DSRA32,
}

impl SpecialOpcode {
    /// The function code.
    pub open spec fn spec_value(&self) -> u32 {
        match *self {
            SpecialOpcode::SLL => 0,
            SpecialOpcode::SRL => 2,
            SpecialOpcode::SRA => 3,
            SpecialOpcode::SLLV => 4,
            SpecialOpcode::SRLV => 6,
            SpecialOpcode::SRAV => 7,
            SpecialOpcode::JR => 8,
            SpecialOpcode::JALR => 9,
            SpecialOpcode::SYSCALL => 12,
            SpecialOpcode::BREAK => 13,
            SpecialOpcode::SYNC => 15,
            SpecialOpcode::MFHI => 16,
            SpecialOpcode::MTHI => 17,
            SpecialOpcode::MFLO => 18,
            SpecialOpcode::MTLO => 19,
            SpecialOpcode::DSLLV => 20,
            SpecialOpcode::DSRLV => 22,
            SpecialOpcode::DSRAV => 23,
            SpecialOpcode::MULT => 24,
            SpecialOpcode::MULTU => 25,
            SpecialOpcode::DIV => 26,
            SpecialOpcode::DIVU => 27,
            SpecialOpcode::DMULT => 28,
            SpecialOpcode::DMULTU => 29,
            SpecialOpcode::DDIV => 30,
            SpecialOpcode::DDIVU => 31,
            SpecialOpcode::ADD => 32,
            SpecialOpcode::ADDU => 33,
            SpecialOpcode::SUB => 34,
            SpecialOpcode::SUBU => 35,
            SpecialOpcode::AND => 36,
            SpecialOpcode::OR => 37,
            SpecialOpcode::XOR => 38,
            SpecialOpcode::NOR => 39,
            SpecialOpcode::SLT => 42,
            SpecialOpcode::SLTU => 43,
            SpecialOpcode::DADD => 44,
            SpecialOpcode::DADDU => 45,
            SpecialOpcode::DSUB => 46,
            SpecialOpcode::DSUBU => 47,
            SpecialOpcode::TGE => 48,
            SpecialOpcode::TGEU => 49,
            SpecialOpcode::TLT => 50,
            SpecialOpcode::TLTU => 51,
            SpecialOpcode::TEQ => 52,
            SpecialOpcode::TNE => 54,
            SpecialOpcode::DSLL => 56,
            SpecialOpcode::DSRL => 58,
            SpecialOpcode::DSRA => 59,
            SpecialOpcode::DSLL32 => 60,
            SpecialOpcode::DSRL32 => 62,
            SpecialOpcode::DSRA32 => 63,
        }
    }

    /// The function code.
    #[verifier::when_used_as_spec(spec_value)]
    pub fn value(&self) -> (r: u32)
        ensures
            r == self.spec_value(),
    {
        match self {
            SpecialOpcode::SLL => 0,
            SpecialOpcode::SRL => 2,
            SpecialOpcode::SRA => 3,
            SpecialOpcode::SLLV => 4,
            SpecialOpcode::SRLV => 6,
            SpecialOpcode::SRAV => 7,
            SpecialOpcode::JR => 8,
            SpecialOpcode::JALR => 9,
            SpecialOpcode::SYSCALL => 12,
            SpecialOpcode::BREAK => 13,
            SpecialOpcode::SYNC => 15,
            SpecialOpcode::MFHI => 16,
            SpecialOpcode::MTHI => 17,
            SpecialOpcode::MFLO => 18,
            SpecialOpcode::MTLO => 19,
            SpecialOpcode::DSLLV => 20,
            SpecialOpcode::DSRLV => 22,
            SpecialOpcode::DSRAV => 23,
            SpecialOpcode::MULT => 24,
            SpecialOpcode::MULTU => 25,
            SpecialOpcode::DIV => 26,
            SpecialOpcode::DIVU => 27,
            SpecialOpcode::DMULT => 28,
            SpecialOpcode::DMULTU => 29,
            SpecialOpcode::DDIV => 30,
            SpecialOpcode::DDIVU => 31,
            SpecialOpcode::ADD => 32,
            SpecialOpcode::ADDU => 33,
            SpecialOpcode::SUB => 34,
            SpecialOpcode::SUBU => 35,
            SpecialOpcode::AND => 36,
            SpecialOpcode::OR => 37,
            SpecialOpcode::XOR => 38,
            SpecialOpcode::NOR => 39,
            SpecialOpcode::SLT => 42,
            SpecialOpcode::SLTU => 43,
            SpecialOpcode::DADD => 44,
            SpecialOpcode::DADDU => 45,
            SpecialOpcode::DSUB => 46,
            SpecialOpcode::DSUBU => 47,
            SpecialOpcode::TGE => 48,
            SpecialOpcode::TGEU => 49,
            SpecialOpcode::TLT => 50,
            SpecialOpcode::TLTU => 51,
            SpecialOpcode::TEQ => 52,
            SpecialOpcode::TNE => 54,
            SpecialOpcode::DSLL => 56,
            SpecialOpcode::DSRL => 58,
            SpecialOpcode::DSRA => 59,
            SpecialOpcode::DSLL32 => 60,
            SpecialOpcode::DSRL32 => 62,
            SpecialOpcode::DSRA32 => 63,
        }
    }
}

/// The operation of a REGIMM instruction (bits 16 to 20).
#[derive(Clone, Copy, Debug, PartialEq, Eq, Structural)]
pub enum RegimmOpcode {
    BLTZ, BGEZ, BLTZL, BGEZL, TGEI, TGEIU, TLTI, TLTIU, TEQI, TNEI, BLTZAL, BGEZAL, BLTZALL,
    BGEZALL,
}

impl RegimmOpcode {
    /// The operation number.
    pub open spec fn spec_value(&self) -> u32 {
        match *self {
            RegimmOpcode::BLTZ => 0,
            RegimmOpcode::BGEZ => 1,
            RegimmOpcode::BLTZL => 2,
            RegimmOpcode::BGEZL => 3,
            RegimmOpcode::TGEI => 8,
            RegimmOpcode::TGEIU => 9,
            RegimmOpcode::TLTI => 10,
            RegimmOpcode::TLTIU => 11,
            RegimmOpcode::TEQI => 12,
            RegimmOpcode::TNEI => 14,
            RegimmOpcode::BLTZAL => 16,
            RegimmOpcode::BGEZAL => 17,
            RegimmOpcode::BLTZALL => 18,
            RegimmOpcode::BGEZALL => 19,
        }
    }

    /// The operation number.
    #[verifier::when_used_as_spec(spec_value)]
    pub fn value(&self) -> (r: u32)
        ensures
            r == self.spec_value(),
    {
        match self {
            RegimmOpcode::BLTZ => 0,
            RegimmOpcode::BGEZ => 1,
            RegimmOpcode::BLTZL => 2,
            RegimmOpcode::BGEZL => 3,
            RegimmOpcode::TGEI => 8,
            RegimmOpcode::TGEIU => 9,
            RegimmOpcode::TLTI => 10,
            RegimmOpcode::TLTIU => 11,
            RegimmOpcode::TEQI => 12,
            RegimmOpcode::TNEI => 14,
            RegimmOpcode::BLTZAL => 16,
            RegimmOpcode::BGEZAL => 17,
            RegimmOpcode::BLTZALL => 18,
            RegimmOpcode::BGEZALL => 19,
        }
    }
}

/// A load or store: `op | base | rt | offset`.
pub open spec fn loadstore_word(op: u32, rt: u32, offset: u16, base: u32) -> u32 {
    (offset as u32) | (rt << 16u32) | (base << 21u32) | (op << 26u32)
}

/// A SPECIAL instruction: `0 | rs | rt | rd | sa | function`.
pub open spec fn special_word(function: u32, sa: u32, rd: u32, rs: u32, rt: u32) -> u32 {
    function | (sa << 6u32) | (rd << 11u32) | (rt << 16u32) | (rs << 21u32) | (0u32 << 26u32)
}

/// A REGIMM instruction: `1 | rs | operation | imm`.
pub open spec fn regimm_word(operation: u32, rs: u32, imm: u16) -> u32 {
    (imm as u32) | (operation << 16u32) | (rs << 21u32) | (1u32 << 26u32)
}

pub struct Assembler {}

impl Assembler {
    /// Encodes a load or store. Both registers must be below 32.
    pub fn make_loadstore(op: Opcode, rt: u32, offset: u16, base: u32) -> (r: u32)
        requires
            base <= 0b11111,
            rt <= 0b11111,
        ensures
            r == loadstore_word(op.spec_value(), rt, offset, base),
    {
        (offset as u32) | (rt << 16u32) | (base << 21u32) | (op.value() << 26u32)
    }

    /// Encodes a SPECIAL instruction. The shift amount and the registers must be below 32.
    pub fn make_special(op: SpecialOpcode, sa: u32, rd: u32, rs: u32, rt: u32) -> (r: u32)
        requires
            sa <= 0b11111,
            rd <= 0b11111,
            rs <= 0b11111,
            rt <= 0b11111,
        ensures
            r == special_word(op.spec_value(), sa, rd, rs, rt),
    {
        op.value() | (sa << 6u32) | (rd << 11u32) | (rt << 16u32) | (rs << 21u32) | (Opcode::SPECIAL.value() << 26u32)
    }

    /// Encodes a REGIMM instruction (a trap or a branch). The register must be below 32.
    pub fn make_regimm_trap(op: RegimmOpcode, rs: u32, imm: u16) -> (r: u32)
        requires
            rs <= 0b11111,
        ensures
            r == regimm_word(op.spec_value(), rs, imm),
    {
        (imm as u32) | (op.value() << 16u32) | (rs << 21u32) | (Opcode::REGIMM.value() << 26u32)
    }
}

/// The operands of a load or store sit in its fields.
pub proof fn lemma_loadstore_fields(op: Opcode, rt: u32, offset: u16, base: u32)
    requires
        rt < 32,
        base < 32,
    ensures
        loadstore_word(op.spec_value(), rt, offset, base) >> 26u32 == op.spec_value(),
        (loadstore_word(op.spec_value(), rt, offset, base) >> 21u32) & 31u32 == base,
        (loadstore_word(op.spec_value(), rt, offset, base) >> 16u32) & 31u32 == rt,
        loadstore_word(op.spec_value(), rt, offset, base) & 0xFFFFu32 == offset as u32,
{
    let o = op.spec_value();
    assert(o < 64);
    assert({
        let w = (offset as u32) | (rt << 16u32) | (base << 21u32) | (o << 26u32);
        &&& w >> 26u32 == o
        &&& (w >> 21u32) & 31u32 == base
        &&& (w >> 16u32) & 31u32 == rt
        &&& w & 0xFFFFu32 == offset as u32
    }) by (bit_vector)
        requires
            o < 64,
            rt < 32,
            base < 32;
}

/// The operands of a SPECIAL instruction sit in its fields.
pub proof fn lemma_special_fields(op: SpecialOpcode, sa: u32, rd: u32, rs: u32, rt: u32)
    requires
        sa < 32,
        rd < 32,
        rs < 32,
        rt < 32,
    ensures
        special_word(op.spec_value(), sa, rd, rs, rt) >> 26u32 == 0,
        (special_word(op.spec_value(), sa, rd, rs, rt) >> 21u32) & 31u32 == rs,
        (special_word(op.spec_value(), sa, rd, rs, rt) >> 16u32) & 31u32 == rt,
        (special_word(op.spec_value(), sa, rd, rs, rt) >> 11u32) & 31u32 == rd,
        (special_word(op.spec_value(), sa, rd, rs, rt) >> 6u32) & 31u32 == sa,
        special_word(op.spec_value(), sa, rd, rs, rt) & 63u32 == op.spec_value(),
{
    let f = op.spec_value();
    assert(f < 64);
    assert({
        let w = f | (sa << 6u32) | (rd << 11u32) | (rt << 16u32) | (rs << 21u32) | (0u32 << 26u32);
        &&& w >> 26u32 == 0
        &&& (w >> 21u32) & 31u32 == rs
        &&& (w >> 16u32) & 31u32 == rt
        &&& (w >> 11u32) & 31u32 == rd
        &&& (w >> 6u32) & 31u32 == sa
        &&& w & 63u32 == f
    }) by (bit_vector)
        requires
            f < 64,
            sa < 32,
            rd < 32,
            rs < 32,
            rt < 32;
}

/// The operands of a REGIMM instruction sit in its fields.
pub proof fn lemma_regimm_fields(op: RegimmOpcode, rs: u32, imm: u16)
    requires
        rs < 32,
    ensures
        regimm_word(op.spec_value(), rs, imm) >> 26u32 == 1,
        (regimm_word(op.spec_value(), rs, imm) >> 21u32) & 31u32 == rs,
        (regimm_word(op.spec_value(), rs, imm) >> 16u32) & 31u32 == op.spec_value(),
        regimm_word(op.spec_value(), rs, imm) & 0xFFFFu32 == imm as u32,
{
    let o = op.spec_value();
    assert(o < 32);
    assert({
        let w = (imm as u32) | (o << 16u32) | (rs << 21u32) | (1u32 << 26u32);
        &&& w >> 26u32 == 1
        &&& (w >> 21u32) & 31u32 == rs
        &&& (w >> 16u32) & 31u32 == o
        &&& w & 0xFFFFu32 == imm as u32
    }) by (bit_vector)
        requires
            o < 32,
            rs < 32;
}

/// Each major opcode has its MIPS number (bits 26 to 31 of the instruction): SPECIAL 0, ..., LB 32, LH 33, ..., LBU 36, ..., SD 63.
pub proof fn lemma_opcode_numbers()
    ensures
        Opcode::SPECIAL.spec_value() == 0,
        Opcode::REGIMM.spec_value() == 1,
        Opcode::J.spec_value() == 2,
        Opcode::JAL.spec_value() == 3,
        Opcode::BEQ.spec_value() == 4,
        Opcode::BNE.spec_value() == 5,
        Opcode::BLEZ.spec_value() == 6,
        Opcode::BGTZ.spec_value() == 7,
        Opcode::ADDI.spec_value() == 8,
        Opcode::ADDIU.spec_value() == 9,
        Opcode::SLTI.spec_value() == 10,
        Opcode::SLTIU.spec_value() == 11,
        Opcode::ANDI.spec_value() == 12,
        Opcode::ORI.spec_value() == 13,
        Opcode::XORI.spec_value() == 14,
        Opcode::LUI.spec_value() == 15,
        Opcode::COP0.spec_value() == 16,
        Opcode::COP1.spec_value() == 17,
        Opcode::BEQL.spec_value() == 20,
        Opcode::BNEL.spec_value() == 21,
        Opcode::BLEZL.spec_value() == 22,
        Opcode::BGTZL.spec_value() == 23,
        Opcode::DADDI.spec_value() == 24,
        Opcode::DADDIU.spec_value() == 25,
        Opcode::LDL.spec_value() == 26,
        Opcode::LDR.spec_value() == 27,
        Opcode::LB.spec_value() == 32,
        Opcode::LH.spec_value() == 33,
        Opcode::LWL.spec_value() == 34,
        Opcode::LW.spec_value() == 35,
        Opcode::LBU.spec_value() == 36,
        Opcode::LHU.spec_value() == 37,
        Opcode::LWR.spec_value() == 38,
        Opcode::LWU.spec_value() == 39,
        Opcode::SB.spec_value() == 40,
        Opcode::SH.spec_value() == 41,
        Opcode::SWL.spec_value() == 42,
        Opcode::SW.spec_value() == 43,
        Opcode::SDL.spec_value() == 44,
        Opcode::SDR.spec_value() == 45,
        Opcode::SWR.spec_value() == 46,
        Opcode::CACHE.spec_value() == 47,
        Opcode::LL.spec_value() == 48,
        Opcode::LWC1.spec_value() == 49,
        Opcode::LLD.spec_value() == 52,
        Opcode::LDC1.spec_value() == 53,
        Opcode::LD.spec_value() == 55,
        Opcode::SC.spec_value() == 56,
        Opcode::SWC1.spec_value() == 57,
        Opcode::SCD.spec_value() == 60,
        Opcode::SDC1.spec_value() == 61,
        Opcode::SD.spec_value() == 63,
{
}

/// Each SPECIAL function has its MIPS function code (bits 0 to 5): SLL 0, ..., ADD 32, ..., DSRA32 63.
pub proof fn lemma_special_opcode_numbers()
    ensures
        SpecialOpcode::SLL.spec_value() == 0,
        SpecialOpcode::SRL.spec_value() == 2,
        SpecialOpcode::SRA.spec_value() == 3,
        SpecialOpcode::SLLV.spec_value() == 4,
        SpecialOpcode::SRLV.spec_value() == 6,
        SpecialOpcode::SRAV.spec_value() == 7,
        SpecialOpcode::JR.spec_value() == 8,
        SpecialOpcode::JALR.spec_value() == 9,
        SpecialOpcode::SYSCALL.spec_value() == 12,
        SpecialOpcode::BREAK.spec_value() == 13,
        SpecialOpcode::SYNC.spec_value() == 15,
        SpecialOpcode::MFHI.spec_value() == 16,
        SpecialOpcode::MTHI.spec_value() == 17,
        SpecialOpcode::MFLO.spec_value() == 18,
        SpecialOpcode::MTLO.spec_value() == 19,
        SpecialOpcode::DSLLV.spec_value() == 20,
        SpecialOpcode::DSRLV.spec_value() == 22,
        SpecialOpcode::DSRAV.spec_value() == 23,
        SpecialOpcode::MULT.spec_value() == 24,
        SpecialOpcode::MULTU.spec_value() == 25,
        SpecialOpcode::DIV.spec_value() == 26,
        SpecialOpcode::DIVU.spec_value() == 27,
        SpecialOpcode::DMULT.spec_value() == 28,
        SpecialOpcode::DMULTU.spec_value() == 29,
        SpecialOpcode::DDIV.spec_value() == 30,
        SpecialOpcode::DDIVU.spec_value() == 31,
        SpecialOpcode::ADD.spec_value() == 32,
        SpecialOpcode::ADDU.spec_value() == 33,
        SpecialOpcode::SUB.spec_value() == 34,
        SpecialOpcode::SUBU.spec_value() == 35,
        SpecialOpcode::AND.spec_value() == 36,
        SpecialOpcode::OR.spec_value() == 37,
        SpecialOpcode::XOR.spec_value() == 38,
        SpecialOpcode::NOR.spec_value() == 39,
        SpecialOpcode::SLT.spec_value() == 42,
        SpecialOpcode::SLTU.spec_value() == 43,
        SpecialOpcode::DADD.spec_value() == 44,
        SpecialOpcode::DADDU.spec_value() == 45,
        SpecialOpcode::DSUB.spec_value() == 46,
        SpecialOpcode::DSUBU.spec_value() == 47,
        SpecialOpcode::TGE.spec_value() == 48,
        SpecialOpcode::TGEU.spec_value() == 49,
        SpecialOpcode::TLT.spec_value() == 50,
        SpecialOpcode::TLTU.spec_value() == 51,
        SpecialOpcode::TEQ.spec_value() == 52,
        SpecialOpcode::TNE.spec_value() == 54,
        SpecialOpcode::DSLL.spec_value() == 56,
        SpecialOpcode::DSRL.spec_value() == 58,
        SpecialOpcode::DSRA.spec_value() == 59,
        SpecialOpcode::DSLL32.spec_value() == 60,
        SpecialOpcode::DSRL32.spec_value() == 62,
        SpecialOpcode::DSRA32.spec_value() == 63,
{
}

/// Each REGIMM operation has its MIPS number (bits 16 to 20): BLTZ 0, BGEZ 1, ..., TEQI 12, ..., BGEZALL 19.
pub proof fn lemma_regimm_opcode_numbers()
    ensures
        RegimmOpcode::BLTZ.spec_value() == 0,
        RegimmOpcode::BGEZ.spec_value() == 1,
        RegimmOpcode::BLTZL.spec_value() == 2,
        RegimmOpcode::BGEZL.spec_value() == 3,
        RegimmOpcode::TGEI.spec_value() == 8,
        RegimmOpcode::TGEIU.spec_value() == 9,
        RegimmOpcode::TLTI.spec_value() == 10,
        RegimmOpcode::TLTIU.spec_value() == 11,
        RegimmOpcode::TEQI.spec_value() == 12,
        RegimmOpcode::TNEI.spec_value() == 14,
        RegimmOpcode::BLTZAL.spec_value() == 16,
        RegimmOpcode::BGEZAL.spec_value() == 17,
        RegimmOpcode::BLTZALL.spec_value() == 18,
        RegimmOpcode::BGEZALL.spec_value() == 19,
{
}

} // verus!
