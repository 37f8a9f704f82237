//! An assembler for the RSP, the N64's vector coprocessor. Every `write_*` method encodes one
//! instruction (two for `write_li`) and hands the words to an [`SPMEMWriter`], which records where
//! in SPMEM each word goes.

use vstd::prelude::*;

use crate::rsp::dmem_writer::SPMEMWriter;

verus! {

/// A general purpose register of the RSP's scalar unit.
#[derive(Clone, Copy, Debug, PartialEq, Eq, Structural)]
pub enum GPR {
    R0, AT, V0, V1, A0, A1, R2, R3, T0, T1, T2, T3, T4, T5, T6, T7, S0, S1, S2, S3, S4, S5,
    S6, S7, T8, T9, K0, K1, GP, SP, S8, RA,
}

impl GPR {
    /// The number that stands for this value.
    pub open spec fn spec_index(&self) -> usize {
        match *self {
            GPR::R0 => 0,
            GPR::AT => 1,
            GPR::V0 => 2,
            GPR::V1 => 3,
            GPR::A0 => 4,
            GPR::A1 => 5,
            GPR::R2 => 6,
            GPR::R3 => 7,
            GPR::T0 => 8,
            GPR::T1 => 9,
            GPR::T2 => 10,
            GPR::T3 => 11,
            GPR::T4 => 12,
            GPR::T5 => 13,
            GPR::T6 => 14,
            GPR::T7 => 15,
            GPR::S0 => 16,
            GPR::S1 => 17,
            GPR::S2 => 18,
            GPR::S3 => 19,
            GPR::S4 => 20,
            GPR::S5 => 21,
            GPR::S6 => 22,
            GPR::S7 => 23,
            GPR::T8 => 24,
            GPR::T9 => 25,
            GPR::K0 => 26,
            GPR::K1 => 27,
            GPR::GP => 28,
            GPR::SP => 29,
            GPR::S8 => 30,
            GPR::RA => 31,
        }
    }

    /// The number that stands for this value.
    #[verifier::when_used_as_spec(spec_index)]
    pub fn index(&self) -> (r: usize)
        ensures
            r == self.spec_index(),
    {
        match self {
            GPR::R0 => 0,
            GPR::AT => 1,
            GPR::V0 => 2,
            GPR::V1 => 3,
            GPR::A0 => 4,
            GPR::A1 => 5,
            GPR::R2 => 6,
            GPR::R3 => 7,
            GPR::T0 => 8,
            GPR::T1 => 9,
            GPR::T2 => 10,
            GPR::T3 => 11,
            GPR::T4 => 12,
            GPR::T5 => 13,
            GPR::T6 => 14,
            GPR::T7 => 15,
            GPR::S0 => 16,
            GPR::S1 => 17,
            GPR::S2 => 18,
            GPR::S3 => 19,
            GPR::S4 => 20,
            GPR::S5 => 21,
            GPR::S6 => 22,
            GPR::S7 => 23,
            GPR::T8 => 24,
            GPR::T9 => 25,
            GPR::K0 => 26,
            GPR::K1 => 27,
            GPR::GP => 28,
            GPR::SP => 29,
            GPR::S8 => 30,
            GPR::RA => 31,
        }
    }

    /// The value that `value` stands for, if there is one.
    pub open spec fn spec_from_index(value: usize) -> Option<GPR> {
        if value == 0 {
            Some(GPR::R0)
        } else if value == 1 {
            Some(GPR::AT)
        } else if value == 2 {
            Some(GPR::V0)
        } else if value == 3 {
            Some(GPR::V1)
        } else if value == 4 {
            Some(GPR::A0)
        } else if value == 5 {
            Some(GPR::A1)
        } else if value == 6 {
            Some(GPR::R2)
        } else if value == 7 {
            Some(GPR::R3)
        } else if value == 8 {
            Some(GPR::T0)
        } else if value == 9 {
            Some(GPR::T1)
        } else if value == 10 {
            Some(GPR::T2)
        } else if value == 11 {
            Some(GPR::T3)
        } else if value == 12 {
            Some(GPR::T4)
        } else if value == 13 {
            Some(GPR::T5)
        } else if value == 14 {
            Some(GPR::T6)
        } else if value == 15 {
            Some(GPR::T7)
        } else if value == 16 {
            Some(GPR::S0)
        } else if value == 17 {
            Some(GPR::S1)
        } else if value == 18 {
            Some(GPR::S2)
        } else if value == 19 {
            Some(GPR::S3)
        } else if value == 20 {
            Some(GPR::S4)
        } else if value == 21 {
            Some(GPR::S5)
        } else if value == 22 {
            Some(GPR::S6)
        } else if value == 23 {
            Some(GPR::S7)
        } else if value == 24 {
            Some(GPR::T8)
        } else if value == 25 {
            Some(GPR::T9)
        } else if value == 26 {
            Some(GPR::K0)
        } else if value == 27 {
            Some(GPR::K1)
        } else if value == 28 {
            Some(GPR::GP)
        } else if value == 29 {
            Some(GPR::SP)
        } else if value == 30 {
            Some(GPR::S8)
        } else if value == 31 {
            Some(GPR::RA)
        } else {
            None
        }
    }

    /// The value that `value` stands for, if there is one.
    pub fn from_index(value: usize) -> (r: Option<GPR>)
        ensures
            r == Self::spec_from_index(value),
    {
        match value {
            0 => Some(GPR::R0),
            1 => Some(GPR::AT),
            2 => Some(GPR::V0),
            3 => Some(GPR::V1),
            4 => Some(GPR::A0),
            5 => Some(GPR::A1),
            6 => Some(GPR::R2),
            7 => Some(GPR::R3),
            8 => Some(GPR::T0),
            9 => Some(GPR::T1),
            10 => Some(GPR::T2),
            11 => Some(GPR::T3),
            12 => Some(GPR::T4),
            13 => Some(GPR::T5),
            14 => Some(GPR::T6),
            15 => Some(GPR::T7),
            16 => Some(GPR::S0),
            17 => Some(GPR::S1),
            18 => Some(GPR::S2),
            19 => Some(GPR::S3),
            20 => Some(GPR::S4),
            21 => Some(GPR::S5),
            22 => Some(GPR::S6),
            23 => Some(GPR::S7),
            24 => Some(GPR::T8),
            25 => Some(GPR::T9),
            26 => Some(GPR::K0),
            27 => Some(GPR::K1),
            28 => Some(GPR::GP),
            29 => Some(GPR::SP),
            30 => Some(GPR::S8),
            31 => Some(GPR::RA),
            _ => None,
        }
    }

    /// `from_index` and `index` undo each other: every value is found again from its number, and
    /// a number that stands for a value is that value's number.
    pub proof fn lemma_from_index_index(self, value: usize)
        ensures
            Self::spec_from_index(self.spec_index()) == Some(self),
            Self::spec_from_index(value) matches Some(e) ==> e.spec_index() == value,
            Self::spec_from_index(value) is Some <==> value <= 31,
    {
    }
}

impl GPR {
    /// The number of steps from `start` up to `end`: `None` unless `start` comes before `end`.
    pub fn steps_between(start: &Self, end: &Self) -> (r: Option<usize>)
        ensures
            r == (if start.spec_index() < end.spec_index() {
                Some((end.spec_index() - start.spec_index()) as usize)
            } else {
                None
            }),
    {
        if start.index() < end.index() {
            Some(end.index() - start.index())
        } else {
            None
        }
    }

    /// The value `count` steps after `start`, if there is one.
    pub fn forward_checked(start: Self, count: usize) -> (r: Option<Self>)
        requires
            start.spec_index() + count <= usize::MAX,
        ensures
            r == Self::spec_from_index((start.spec_index() + count) as usize),
    {
        Self::from_index(start.index() + count)
    }

    /// The value `count` steps before `start`, if there is one.
    pub fn backward_checked(start: Self, count: usize) -> (r: Option<Self>)
        requires
            count <= start.spec_index(),
        ensures
            r == Self::spec_from_index((start.spec_index() - count) as usize),
    {
        Self::from_index(start.index() - count)
    }

    /// Stepping forward by the distance to a later value reaches it, and stepping back by the
    /// same distance returns.
    pub proof fn lemma_steps(start: Self, end: Self)
        requires
            start.spec_index() < end.spec_index(),
        ensures
            Self::spec_from_index((start.spec_index() + (end.spec_index() - start.spec_index())) as usize) == Some(end),
            Self::spec_from_index((end.spec_index() - (end.spec_index() - start.spec_index())) as usize) == Some(start),
    {
        start.lemma_from_index_index(0);
        end.lemma_from_index_index(0);
    }
}

/// A vector register of the RSP.
#[derive(Clone, Copy, Debug, PartialEq, Eq, Structural)]
pub enum VR {
    V0, V1, V2, V3, V4, V5, V6, V7, V8, V9, V10, V11, V12, V13, V14, V15, V16, V17, V18, V19,
    V20, V21, V22, V23, V24, V25, V26, V27, V28, V29, V30, V31,
}

impl VR {
    /// The number that stands for this value.
    pub open spec fn spec_index(&self) -> usize {
        match *self {
            VR::V0 => 0,
            VR::V1 => 1,
            VR::V2 => 2,
            VR::V3 => 3,
            VR::V4 => 4,
            VR::V5 => 5,
            VR::V6 => 6,
            VR::V7 => 7,
            VR::V8 => 8,
            VR::V9 => 9,
            VR::V10 => 10,
            VR::V11 => 11,
            VR::V12 => 12,
            VR::V13 => 13,
            VR::V14 => 14,
            VR::V15 => 15,
            VR::V16 => 16,
            VR::V17 => 17,
            VR::V18 => 18,
            VR::V19 => 19,
            VR::V20 => 20,
            VR::V21 => 21,
            VR::V22 => 22,
            VR::V23 => 23,
            VR::V24 => 24,
            VR::V25 => 25,
            VR::V26 => 26,
            VR::V27 => 27,
            VR::V28 => 28,
            VR::V29 => 29,
            VR::V30 => 30,
            VR::V31 => 31,
        }
    }

    /// The number that stands for this value.
    #[verifier::when_used_as_spec(spec_index)]
    pub fn index(&self) -> (r: usize)
        ensures
            r == self.spec_index(),
    {
        match self {
            VR::V0 => 0,
            VR::V1 => 1,
            VR::V2 => 2,
            VR::V3 => 3,
            VR::V4 => 4,
            VR::V5 => 5,
            VR::V6 => 6,
            VR::V7 => 7,
            VR::V8 => 8,
            VR::V9 => 9,
            VR::V10 => 10,
            VR::V11 => 11,
            VR::V12 => 12,
            VR::V13 => 13,
            VR::V14 => 14,
            VR::V15 => 15,
            VR::V16 => 16,
            VR::V17 => 17,
            VR::V18 => 18,
            VR::V19 => 19,
            VR::V20 => 20,
            VR::V21 => 21,
            VR::V22 => 22,
            VR::V23 => 23,
            VR::V24 => 24,
            VR::V25 => 25,
            VR::V26 => 26,
            VR::V27 => 27,
            VR::V28 => 28,
            VR::V29 => 29,
            VR::V30 => 30,
            VR::V31 => 31,
        }
    }

    /// The value that `value` stands for, if there is one.
    pub open spec fn spec_from_index(value: usize) -> Option<VR> {
        if value == 0 {
            Some(VR::V0)
        } else if value == 1 {
            Some(VR::V1)
        } else if value == 2 {
            Some(VR::V2)
        } else if value == 3 {
            Some(VR::V3)
        } else if value == 4 {
            Some(VR::V4)
        } else if value == 5 {
            Some(VR::V5)
        } else if value == 6 {
            Some(VR::V6)
        } else if value == 7 {
            Some(VR::V7)
        } else if value == 8 {
            Some(VR::V8)
        } else if value == 9 {
            Some(VR::V9)
        } else if value == 10 {
            Some(VR::V10)
        } else if value == 11 {
            Some(VR::V11)
        } else if value == 12 {
            Some(VR::V12)
        } else if value == 13 {
            Some(VR::V13)
        } else if value == 14 {
            Some(VR::V14)
        } else if value == 15 {
            Some(VR::V15)
        } else if value == 16 {
            Some(VR::V16)
        } else if value == 17 {
            Some(VR::V17)
        } else if value == 18 {
            Some(VR::V18)
        } else if value == 19 {
            Some(VR::V19)
        } else if value == 20 {
            Some(VR::V20)
        } else if value == 21 {
            Some(VR::V21)
        } else if value == 22 {
            Some(VR::V22)
        } else if value == 23 {
            Some(VR::V23)
        } else if value == 24 {
            Some(VR::V24)
        } else if value == 25 {
            Some(VR::V25)
        } else if value == 26 {
            Some(VR::V26)
        } else if value == 27 {
            Some(VR::V27)
        } else if value == 28 {
            Some(VR::V28)
        } else if value == 29 {
            Some(VR::V29)
        } else if value == 30 {
            Some(VR::V30)
        } else if value == 31 {
            Some(VR::V31)
        } else {
            None
        }
    }

    /// The value that `value` stands for, if there is one.
    pub fn from_index(value: usize) -> (r: Option<VR>)
        ensures
            r == Self::spec_from_index(value),
    {
        match value {
            0 => Some(VR::V0),
            1 => Some(VR::V1),
            2 => Some(VR::V2),
            3 => Some(VR::V3),
            4 => Some(VR::V4),
            5 => Some(VR::V5),
            6 => Some(VR::V6),
            7 => Some(VR::V7),
            8 => Some(VR::V8),
            9 => Some(VR::V9),
            10 => Some(VR::V10),
            11 => Some(VR::V11),
            12 => Some(VR::V12),
            13 => Some(VR::V13),
            14 => Some(VR::V14),
            15 => Some(VR::V15),
            16 => Some(VR::V16),
            17 => Some(VR::V17),
            18 => Some(VR::V18),
            19 => Some(VR::V19),
            20 => Some(VR::V20),
            21 => Some(VR::V21),
            22 => Some(VR::V22),
            23 => Some(VR::V23),
            24 => Some(VR::V24),
            25 => Some(VR::V25),
            26 => Some(VR::V26),
            27 => Some(VR::V27),
            28 => Some(VR::V28),
            29 => Some(VR::V29),
            30 => Some(VR::V30),
            31 => Some(VR::V31),
            _ => None,
        }
    }

    /// `from_index` and `index` undo each other: every value is found again from its number, and
    /// a number that stands for a value is that value's number.
    pub proof fn lemma_from_index_index(self, value: usize)
        ensures
            Self::spec_from_index(self.spec_index()) == Some(self),
            Self::spec_from_index(value) matches Some(e) ==> e.spec_index() == value,
            Self::spec_from_index(value) is Some <==> value <= 31,
    {
    }
}

impl VR {
    /// The number of steps from `start` up to `end`: `None` unless `start` comes before `end`.
    pub fn steps_between(start: &Self, end: &Self) -> (r: Option<usize>)
        ensures
            r == (if start.spec_index() < end.spec_index() {
                Some((end.spec_index() - start.spec_index()) as usize)
            } else {
                None
            }),
    {
        if start.index() < end.index() {
            Some(end.index() - start.index())
        } else {
            None
        }
    }

    /// The value `count` steps after `start`, if there is one.
    pub fn forward_checked(start: Self, count: usize) -> (r: Option<Self>)
        requires
            start.spec_index() + count <= usize::MAX,
        ensures
            r == Self::spec_from_index((start.spec_index() + count) as usize),
    {
        Self::from_index(start.index() + count)
    }

    /// The value `count` steps before `start`, if there is one.
    pub fn backward_checked(start: Self, count: usize) -> (r: Option<Self>)
        requires
            count <= start.spec_index(),
        ensures
            r == Self::spec_from_index((start.spec_index() - count) as usize),
    {
        Self::from_index(start.index() - count)
    }

    /// Stepping forward by the distance to a later value reaches it, and stepping back by the
    /// same distance returns.
    pub proof fn lemma_steps(start: Self, end: Self)
        requires
            start.spec_index() < end.spec_index(),
        ensures
            Self::spec_from_index((start.spec_index() + (end.spec_index() - start.spec_index())) as usize) == Some(end),
            Self::spec_from_index((end.spec_index() - (end.spec_index() - start.spec_index())) as usize) == Some(start),
    {
        start.lemma_from_index_index(0);
        end.lemma_from_index_index(0);
    }
}

/// The element specifier of a vector instruction: which lanes of the second source operand are
/// used for each lane of the result.
#[derive(Clone, Copy, Debug, PartialEq, Eq, Structural)]
pub enum Element {
    All, All1, Q0, Q1, H0, H1, H2, H3, _0, _1, _2, _3, _4, _5, _6, _7,
}

impl Element {
    /// The number that stands for this value.
    pub open spec fn spec_index(&self) -> usize {
        match *self {
            Element::All => 0,
            Element::All1 => 1,
            Element::Q0 => 2,
            Element::Q1 => 3,
            Element::H0 => 4,
            Element::H1 => 5,
            Element::H2 => 6,
            Element::H3 => 7,
            Element::_0 => 8,
            Element::_1 => 9,
            Element::_2 => 10,
            Element::_3 => 11,
            Element::_4 => 12,
            Element::_5 => 13,
            Element::_6 => 14,
            Element::_7 => 15,
        }
    }

    /// The number that stands for this value.
    #[verifier::when_used_as_spec(spec_index)]
    pub fn index(&self) -> (r: usize)
        ensures
            r == self.spec_index(),
    {
        match self {
            Element::All => 0,
            Element::All1 => 1,
            Element::Q0 => 2,
            Element::Q1 => 3,
            Element::H0 => 4,
            Element::H1 => 5,
            Element::H2 => 6,
            Element::H3 => 7,
            Element::_0 => 8,
            Element::_1 => 9,
            Element::_2 => 10,
            Element::_3 => 11,
            Element::_4 => 12,
            Element::_5 => 13,
            Element::_6 => 14,
            Element::_7 => 15,
        }
    }

    /// The value that `value` stands for, if there is one.
    pub open spec fn spec_from_index(value: usize) -> Option<Element> {
        if value == 0 {
            Some(Element::All)
        } else if value == 1 {
            Some(Element::All1)
        } else if value == 2 {
            Some(Element::Q0)
        } else if value == 3 {
            Some(Element::Q1)
        } else if value == 4 {
            Some(Element::H0)
        } else if value == 5 {
            Some(Element::H1)
        } else if value == 6 {
            Some(Element::H2)
        } else if value == 7 {
            Some(Element::H3)
        } else if value == 8 {
            Some(Element::_0)
        } else if value == 9 {
            Some(Element::_1)
        } else if value == 10 {
            Some(Element::_2)
        } else if value == 11 {
            Some(Element::_3)
        } else if value == 12 {
            Some(Element::_4)
        } else if value == 13 {
            Some(Element::_5)
        } else if value == 14 {
            Some(Element::_6)
        } else if value == 15 {
            Some(Element::_7)
        } else {
            None
        }
    }

    /// The value that `value` stands for, if there is one.
    pub fn from_index(value: usize) -> (r: Option<Element>)
        ensures
            r == Self::spec_from_index(value),
    {
        match value {
            0 => Some(Element::All),
            1 => Some(Element::All1),
            2 => Some(Element::Q0),
            3 => Some(Element::Q1),
            4 => Some(Element::H0),
            5 => Some(Element::H1),
            6 => Some(Element::H2),
            7 => Some(Element::H3),
            8 => Some(Element::_0),
            9 => Some(Element::_1),
            10 => Some(Element::_2),
            11 => Some(Element::_3),
            12 => Some(Element::_4),
            13 => Some(Element::_5),
            14 => Some(Element::_6),
            15 => Some(Element::_7),
            _ => None,
        }
    }

    /// `from_index` and `index` undo each other: every value is found again from its number, and
    /// a number that stands for a value is that value's number.
    pub proof fn lemma_from_index_index(self, value: usize)
        ensures
            Self::spec_from_index(self.spec_index()) == Some(self),
            Self::spec_from_index(value) matches Some(e) ==> e.spec_index() == value,
            Self::spec_from_index(value) is Some <==> value <= 15,
    {
    }
}

impl Element {
    /// The lane of the source operand that lane `index` of the result reads: every lane for
    /// `All`, pairs for the quarter specifiers, quads for the half specifiers and a single lane
    /// broadcast to all for `_0` to `_7`.
    pub open spec fn spec_effective_element_index(&self, index: usize) -> usize {
        let e = self.spec_index();
        if e <= 1 {
            index
        } else if e <= 3 {
            ((e - 2) + (index / 2) * 2) as usize
        } else if e <= 7 {
            ((e - 4) + (index / 4) * 4) as usize
        } else {
            (e - 8) as usize
        }
    }

    /// The lane of the source operand that lane `index` of the result reads.
    pub fn get_effective_element_index(&self, index: usize) -> (r: usize)
        requires
            index < 8,
        ensures
            r == self.spec_effective_element_index(index),
            r < 8,
    {
        let e = self.index();
        if e <= 1 {
            index
        } else if e <= 3 {
            (e - 2) + (index / 2) * 2
        } else if e <= 7 {
            (e - 4) + (index / 4) * 4
        } else {
            e - 8
        }
    }
}

impl Element {
    /// The number of steps from `start` up to `end`: `None` unless `start` comes before `end`.
    pub fn steps_between(start: &Self, end: &Self) -> (r: Option<usize>)
        ensures
            r == (if start.spec_index() < end.spec_index() {
                Some((end.spec_index() - start.spec_index()) as usize)
            } else {
                None
            }),
    {
        if start.index() < end.index() {
            Some(end.index() - start.index())
        } else {
            None
        }
    }

    /// The value `count` steps after `start`, if there is one.
    pub fn forward_checked(start: Self, count: usize) -> (r: Option<Self>)
        requires
            start.spec_index() + count <= usize::MAX,
        ensures
            r == Self::spec_from_index((start.spec_index() + count) as usize),
    {
        Self::from_index(start.index() + count)
    }

    /// The value `count` steps before `start`, if there is one.
    pub fn backward_checked(start: Self, count: usize) -> (r: Option<Self>)
        requires
            count <= start.spec_index(),
        ensures
            r == Self::spec_from_index((start.spec_index() - count) as usize),
    {
        Self::from_index(start.index() - count)
    }

    /// Stepping forward by the distance to a later value reaches it, and stepping back by the
    /// same distance returns.
    pub proof fn lemma_steps(start: Self, end: Self)
        requires
            start.spec_index() < end.spec_index(),
        ensures
            Self::spec_from_index((start.spec_index() + (end.spec_index() - start.spec_index())) as usize) == Some(end),
            Self::spec_from_index((end.spec_index() - (end.spec_index() - start.spec_index())) as usize) == Some(start),
    {
        start.lemma_from_index_index(0);
        end.lemma_from_index_index(0);
    }
}

/// An element index (0 to 15) as used by the vector load, store and move instructions.
#[derive(Clone, Copy, Debug, PartialEq, Eq, Structural, PartialOrd, Ord)]
pub enum E {
    _0, _1, _2, _3, _4, _5, _6, _7, _8, _9, _10, _11, _12, _13, _14, _15,
}

impl E {
    /// The number that stands for this value.
    pub open spec fn spec_index(&self) -> usize {
        match *self {
            E::_0 => 0,
            E::_1 => 1,
            E::_2 => 2,
            E::_3 => 3,
            E::_4 => 4,
            E::_5 => 5,
            E::_6 => 6,
            E::_7 => 7,
            E::_8 => 8,
            E::_9 => 9,
            E::_10 => 10,
            E::_11 => 11,
            E::_12 => 12,
            E::_13 => 13,
            E::_14 => 14,
            E::_15 => 15,
        }
    }

    /// The number that stands for this value.
    #[verifier::when_used_as_spec(spec_index)]
    pub fn index(&self) -> (r: usize)
        ensures
            r == self.spec_index(),
    {
        match self {
            E::_0 => 0,
            E::_1 => 1,
            E::_2 => 2,
            E::_3 => 3,
            E::_4 => 4,
            E::_5 => 5,
            E::_6 => 6,
            E::_7 => 7,
            E::_8 => 8,
            E::_9 => 9,
            E::_10 => 10,
            E::_11 => 11,
            E::_12 => 12,
            E::_13 => 13,
            E::_14 => 14,
            E::_15 => 15,
        }
    }

    /// The value that `value` stands for, if there is one.
    pub open spec fn spec_from_index(value: usize) -> Option<E> {
        if value == 0 {
            Some(E::_0)
        } else if value == 1 {
            Some(E::_1)
        } else if value == 2 {
            Some(E::_2)
        } else if value == 3 {
            Some(E::_3)
        } else if value == 4 {
            Some(E::_4)
        } else if value == 5 {
            Some(E::_5)
        } else if value == 6 {
            Some(E::_6)
        } else if value == 7 {
            Some(E::_7)
        } else if value == 8 {
            Some(E::_8)
        } else if value == 9 {
            Some(E::_9)
        } else if value == 10 {
            Some(E::_10)
        } else if value == 11 {
            Some(E::_11)
        } else if value == 12 {
            Some(E::_12)
        } else if value == 13 {
            Some(E::_13)
        } else if value == 14 {
            Some(E::_14)
        } else if value == 15 {
            Some(E::_15)
        } else {
            None
        }
    }

    /// The value that `value` stands for, if there is one.
    pub fn from_index(value: usize) -> (r: Option<E>)
        ensures
            r == Self::spec_from_index(value),
    {
        match value {
            0 => Some(E::_0),
            1 => Some(E::_1),
            2 => Some(E::_2),
            3 => Some(E::_3),
            4 => Some(E::_4),
            5 => Some(E::_5),
            6 => Some(E::_6),
            7 => Some(E::_7),
            8 => Some(E::_8),
            9 => Some(E::_9),
            10 => Some(E::_10),
            11 => Some(E::_11),
            12 => Some(E::_12),
            13 => Some(E::_13),
            14 => Some(E::_14),
            15 => Some(E::_15),
            _ => None,
        }
    }

    /// `from_index` and `index` undo each other: every value is found again from its number, and
    /// a number that stands for a value is that value's number.
    pub proof fn lemma_from_index_index(self, value: usize)
        ensures
            Self::spec_from_index(self.spec_index()) == Some(self),
            Self::spec_from_index(value) matches Some(e) ==> e.spec_index() == value,
            Self::spec_from_index(value) is Some <==> value <= 15,
    {
    }
}

impl E {
    /// The number of steps from `start` up to `end`: `None` unless `start` comes before `end`.
    pub fn steps_between(start: &Self, end: &Self) -> (r: Option<usize>)
        ensures
            r == (if start.spec_index() < end.spec_index() {
                Some((end.spec_index() - start.spec_index()) as usize)
            } else {
                None
            }),
    {
        if start.index() < end.index() {
            Some(end.index() - start.index())
        } else {
            None
        }
    }

    /// The value `count` steps after `start`, if there is one.
    pub fn forward_checked(start: Self, count: usize) -> (r: Option<Self>)
        requires
            start.spec_index() + count <= usize::MAX,
        ensures
            r == Self::spec_from_index((start.spec_index() + count) as usize),
    {
        Self::from_index(start.index() + count)
    }

    /// The value `count` steps before `start`, if there is one.
    pub fn backward_checked(start: Self, count: usize) -> (r: Option<Self>)
        requires
            count <= start.spec_index(),
        ensures
            r == Self::spec_from_index((start.spec_index() - count) as usize),
    {
        Self::from_index(start.index() - count)
    }

    /// Stepping forward by the distance to a later value reaches it, and stepping back by the
    /// same distance returns.
    pub proof fn lemma_steps(start: Self, end: Self)
        requires
            start.spec_index() < end.spec_index(),
        ensures
            Self::spec_from_index((start.spec_index() + (end.spec_index() - start.spec_index())) as usize) == Some(end),
            Self::spec_from_index((end.spec_index() - (end.spec_index() - start.spec_index())) as usize) == Some(start),
    {
        start.lemma_from_index_index(0);
        end.lemma_from_index_index(0);
    }
}

/// A register that the RSP reaches through its coprocessor 0.
#[derive(Clone, Copy, Debug, PartialEq, Eq, Structural)]
pub enum CP0Register {
    SPAddress, DRAMAddress, ReadLength, WriteLength, SPStatus, DmaFull, DmaBusy, Semaphore,
    DPStart, DPEnd, DPStatus, DPClock,
}

impl CP0Register {
    /// The register number.
    pub open spec fn spec_value(&self) -> u32 {
        match *self {
            CP0Register::SPAddress => 0,
            CP0Register::DRAMAddress => 1,
            CP0Register::ReadLength => 2,
            CP0Register::WriteLength => 3,
            CP0Register::SPStatus => 4,
            CP0Register::DmaFull => 5,
            CP0Register::DmaBusy => 6,
            CP0Register::Semaphore => 7,
            CP0Register::DPStart => 8,
            CP0Register::DPEnd => 9,
            CP0Register::DPStatus => 11,
            CP0Register::DPClock => 12,
        }
    }

    /// The register number.
    #[verifier::when_used_as_spec(spec_value)]
    pub fn value(&self) -> (r: u32)
        ensures
            r == self.spec_value(),
    {
        match self {
            CP0Register::SPAddress => 0,
            CP0Register::DRAMAddress => 1,
            CP0Register::ReadLength => 2,
            CP0Register::WriteLength => 3,
            CP0Register::SPStatus => 4,
            CP0Register::DmaFull => 5,
            CP0Register::DmaBusy => 6,
            CP0Register::Semaphore => 7,
            CP0Register::DPStart => 8,
            CP0Register::DPEnd => 9,
            CP0Register::DPStatus => 11,
            CP0Register::DPClock => 12,
        }
    }
}

/// A flags register of the vector unit.
#[derive(Clone, Copy, Debug, PartialEq, Eq, Structural)]
pub enum CP2FlagsRegister {
    VCO, VCC, VCE,
}

impl CP2FlagsRegister {
    /// The register number.
    pub open spec fn spec_value(&self) -> u32 {
        match *self {
            CP2FlagsRegister::VCO => 0,
            CP2FlagsRegister::VCC => 1,
            CP2FlagsRegister::VCE => 2,
        }
    }

    /// The register number.
    #[verifier::when_used_as_spec(spec_value)]
    pub fn value(&self) -> (r: u32)
        ensures
            r == self.spec_value(),
    {
        match self {
            CP2FlagsRegister::VCO => 0,
            CP2FlagsRegister::VCC => 1,
            CP2FlagsRegister::VCE => 2,
        }
    }
}

/// The part of the accumulator that VSAR reads.
#[derive(Clone, Copy, Debug, PartialEq, Eq, Structural)]
pub enum VSARAccumulator {
    High, Mid, Low,
}

impl VSARAccumulator {
    /// The element number that selects this part.
    pub open spec fn spec_value(&self) -> usize {
        match *self {
            VSARAccumulator::High => 8,
            VSARAccumulator::Mid => 9,
            VSARAccumulator::Low => 10,
        }
    }

    /// The element number that selects this part.
    #[verifier::when_used_as_spec(spec_value)]
    pub fn value(&self) -> (r: usize)
        ensures
            r == self.spec_value(),
    {
        match self {
            VSARAccumulator::High => 8,
            VSARAccumulator::Mid => 9,
            VSARAccumulator::Low => 10,
        }
    }
}

/// Major opcodes (bits 26 to 31 of an instruction).
pub const OP_SPECIAL: u32 = 0;
pub const OP_REGIMM: u32 = 1;
pub const OP_J: u32 = 2;
pub const OP_JAL: u32 = 3;
pub const OP_BEQ: u32 = 4;
pub const OP_BNE: u32 = 5;
pub const OP_BLEZ: u32 = 6;
pub const OP_BGTZ: u32 = 7;
pub const OP_ADDI: u32 = 8;
pub const OP_ADDIU: u32 = 9;
pub const OP_SLTI: u32 = 10;
pub const OP_SLTIU: u32 = 11;
pub const OP_ANDI: u32 = 12;
pub const OP_ORI: u32 = 13;
pub const OP_XORI: u32 = 14;
pub const OP_LUI: u32 = 15;
pub const OP_COP0: u32 = 16;
pub const OP_COP2: u32 = 18;
pub const OP_LB: u32 = 32;
pub const OP_LH: u32 = 33;
pub const OP_LW: u32 = 35;
pub const OP_LBU: u32 = 36;
pub const OP_LHU: u32 = 37;
pub const OP_LWU: u32 = 39;
pub const OP_SB: u32 = 40;
pub const OP_SH: u32 = 41;
pub const OP_SW: u32 = 43;
pub const OP_LWC2: u32 = 50;
pub const OP_SWC2: u32 = 58;

/// Function codes of SPECIAL instructions (bits 0 to 5).
pub const SPECIAL_SLL: u32 = 0;
pub const SPECIAL_SRL: u32 = 2;
pub const SPECIAL_SRA: u32 = 3;
pub const SPECIAL_SLLV: u32 = 4;
pub const SPECIAL_SRLV: u32 = 6;
pub const SPECIAL_SRAV: u32 = 7;
pub const SPECIAL_JR: u32 = 8;
pub const SPECIAL_JALR: u32 = 9;
pub const SPECIAL_BREAK: u32 = 13;
pub const SPECIAL_ADD: u32 = 32;
pub const SPECIAL_ADDU: u32 = 33;
pub const SPECIAL_SUB: u32 = 34;
pub const SPECIAL_SUBU: u32 = 35;
pub const SPECIAL_AND: u32 = 36;
pub const SPECIAL_OR: u32 = 37;
pub const SPECIAL_XOR: u32 = 38;
pub const SPECIAL_NOR: u32 = 39;
pub const SPECIAL_SLT: u32 = 42;
pub const SPECIAL_SLTU: u32 = 43;

/// REGIMM operations (bits 16 to 20).
pub const REGIMM_BLTZ: u32 = 0;
pub const REGIMM_BGEZ: u32 = 1;
pub const REGIMM_BLTZAL: u32 = 16;
pub const REGIMM_BGEZAL: u32 = 17;

/// Coprocessor 0 operations (bits 21 to 25).
pub const CP0_MFC0: u32 = 0;
pub const CP0_MTC0: u32 = 4;

/// Vector load and store operations (bits 11 to 15).
pub const WC2_BV: u32 = 0;
pub const WC2_SV: u32 = 1;
pub const WC2_LV: u32 = 2;
pub const WC2_DV: u32 = 3;
pub const WC2_QV: u32 = 4;
pub const WC2_RV: u32 = 5;
pub const WC2_PV: u32 = 6;
pub const WC2_UV: u32 = 7;
pub const WC2_HV: u32 = 8;
pub const WC2_FV: u32 = 9;
pub const WC2_WV: u32 = 10;
pub const WC2_TV: u32 = 11;

/// Coprocessor 2 operations (bits 21 to 25).
pub const CP2_MFC2: u32 = 0;
pub const CP2_CFC2: u32 = 2;
pub const CP2_MTC2: u32 = 4;
pub const CP2_CTC2: u32 = 6;
pub const CP2_VECTOR: u32 = 16;

/// Vector unit operations (bits 0 to 5).
pub const VECTOR_VMULF: u32 = 0;
pub const VECTOR_VMULU: u32 = 1;
pub const VECTOR_VRNDP: u32 = 2;
pub const VECTOR_VMULQ: u32 = 3;
pub const VECTOR_VMUDL: u32 = 4;
pub const VECTOR_VMUDM: u32 = 5;
pub const VECTOR_VMUDN: u32 = 6;
pub const VECTOR_VMUDH: u32 = 7;
pub const VECTOR_VMACF: u32 = 8;
pub const VECTOR_VMACU: u32 = 9;
pub const VECTOR_VRNDN: u32 = 10;
pub const VECTOR_VMACQ: u32 = 11;
pub const VECTOR_VMADL: u32 = 12;
pub const VECTOR_VMADM: u32 = 13;
pub const VECTOR_VMADN: u32 = 14;
pub const VECTOR_VMADH: u32 = 15;
pub const VECTOR_VADD: u32 = 16;
pub const VECTOR_VSUB: u32 = 17;
pub const VECTOR_VSUT: u32 = 18;
pub const VECTOR_VABS: u32 = 19;
pub const VECTOR_VADDC: u32 = 20;
pub const VECTOR_VSUBC: u32 = 21;
pub const VECTOR_VADDB: u32 = 22;
pub const VECTOR_VSUBB: u32 = 23;
pub const VECTOR_VACCB: u32 = 24;
pub const VECTOR_VSUCB: u32 = 25;
pub const VECTOR_VSAD: u32 = 26;
pub const VECTOR_VSAC: u32 = 27;
pub const VECTOR_VSUM: u32 = 28;
pub const VECTOR_VSAR: u32 = 29;
pub const VECTOR_V30: u32 = 30;
pub const VECTOR_V31: u32 = 31;
pub const VECTOR_VLT: u32 = 32;
pub const VECTOR_VEQ: u32 = 33;
pub const VECTOR_VNE: u32 = 34;
pub const VECTOR_VGE: u32 = 35;
pub const VECTOR_VCL: u32 = 36;
pub const VECTOR_VCH: u32 = 37;
pub const VECTOR_VCR: u32 = 38;
pub const VECTOR_VMRG: u32 = 39;
pub const VECTOR_VAND: u32 = 40;
pub const VECTOR_VNAND: u32 = 41;
pub const VECTOR_VOR: u32 = 42;
pub const VECTOR_VNOR: u32 = 43;
pub const VECTOR_VXOR: u32 = 44;
pub const VECTOR_VNXOR: u32 = 45;
pub const VECTOR_V46: u32 = 46;
pub const VECTOR_V47: u32 = 47;
pub const VECTOR_VRCP: u32 = 48;
pub const VECTOR_VRCPL: u32 = 49;
pub const VECTOR_VRCPH: u32 = 50;
pub const VECTOR_VMOV: u32 = 51;
pub const VECTOR_VRSQ: u32 = 52;
pub const VECTOR_VRSQL: u32 = 53;
pub const VECTOR_VRSQH: u32 = 54;
pub const VECTOR_VNOP: u32 = 55;
pub const VECTOR_VEXTT: u32 = 56;
pub const VECTOR_VEXTQ: u32 = 57;
pub const VECTOR_VEXTN: u32 = 58;
pub const VECTOR_V59: u32 = 59;
pub const VECTOR_VINST: u32 = 60;
pub const VECTOR_VINSQ: u32 = 61;
pub const VECTOR_VINSN: u32 = 62;
pub const VECTOR_VNULL: u32 = 63;

/// An instruction with a 16 bit immediate: `op | rs | rt | imm`.
pub open spec fn main_immediate_word(op: u32, rt: u32, rs: u32, imm: u16) -> u32 {
    (imm as u32) | (rt << 16u32) | (rs << 21u32) | (op << 26u32)
}

/// A jump: `op | target`, the target in words.
pub open spec fn main_jump_word(op: u32, target_in_words: u32) -> u32 {
    target_in_words | (op << 26u32)
}

/// A SPECIAL instruction: `0 | rs | rt | rd | sa | function`.
pub open spec fn special_word(function: u32, sa: u32, rd: u32, rs: u32, rt: u32) -> u32 {
    function | (sa << 6u32) | (rd << 11u32) | (rt << 16u32) | (rs << 21u32) | (OP_SPECIAL << 26u32)
}

/// A REGIMM instruction: `1 | rs | operation | imm`.
pub open spec fn regimm_word(operation: u32, rs: u32, imm: u16) -> u32 {
    (imm as u32) | (operation << 16u32) | (rs << 21u32) | (OP_REGIMM << 26u32)
}

/// A coprocessor 0 move: `COP0 | operation | rt | register`.
pub open spec fn cop0_word(operation: u32, register: u32, rt: u32) -> u32 {
    (register << 11u32) | (rt << 16u32) | (operation << 21u32) | (OP_COP0 << 26u32)
}

/// A vector load or store: `op | base | vt | operation | element | offset (7 bits)`.
pub open spec fn wc2_word(op: u32, operation: u32, vt: u32, element: u32, imm7: i32, base: u32) -> u32 {
    ((imm7 as u32) & 0x7Fu32) | (element << 7u32) | (operation << 11u32) | (vt << 16u32) | (base << 21u32) | (op << 26u32)
}

/// A coprocessor 2 move: `COP2 | operation | rt | rd | element | 0`.
pub open spec fn cop2_word(operation: u32, rd: u32, rt: u32, e: u32) -> u32 {
    (e << 7u32) | (rd << 11u32) | (rt << 16u32) | (operation << 21u32) | (OP_COP2 << 26u32)
}

/// A vector computation: `COP2 | 1 | element | vt | vs | vd | operation`.
pub open spec fn vector_word(operation: u32, vd: u32, vt: u32, vs: u32, e: u32) -> u32 {
    operation | (vd << 6u32) | (vs << 11u32) | (vt << 16u32) | (e << 21u32) | (CP2_VECTOR << 21u32) | (OP_COP2 << 26u32)
}

/// The branch offset, in instructions and relative to the delay slot, that reaches `target` from
/// an instruction at `current`, both byte offsets in IMEM (whose addresses wrap at 4 KiB).
pub open spec fn backwards_branch_offset(target: usize, current: usize) -> i16 {
    ((((((target & 0xFFFusize) + 0x1000usize - (current & 0xFFFusize)) as usize) & 0xFFFusize) >> 2usize) as i16 - 1i16) as i16
}

proof fn lemma_distance_bits(target: usize, current: usize, distance: usize)
    by (bit_vector)
    ensures
        (target & 0xFFFusize) + 0x1000usize - (current & 0xFFFusize) <= 0x1FFFusize,
        (current & 0xFFFusize) <= 0xFFFusize,
        (target & 0xFFFusize) <= 0xFFFusize,
        distance == (((target & 0xFFFusize) + 0x1000usize - (current & 0xFFFusize)) as usize) & 0xFFFusize
            ==> distance >> 2usize <= 0x3FFusize,
{
}

/// A BGTZ emitted by `write_bgtz_backwards` at `current` branches to `target`: the branch goes
/// to the delay slot's address plus four times the sign-extended offset, and the RSP's 12 bit
/// program counter wraps, so the sum is taken modulo 4 KiB.
pub proof fn lemma_backwards_branch_reaches_target(target: usize, current: usize)
    by (bit_vector)
    requires
        target & 3usize == 0usize,
        current & 3usize == 0usize,
    ensures
        ((((current as u16) + 4u16) as u16 + 4u16 * (backwards_branch_offset(target, current) as u16)) as u16) & 0xFFFu16
            == (target as u16) & 0xFFFu16,
{
}

/// The operands of an immediate instruction sit in its fields.
pub proof fn lemma_main_immediate_fields(op: u32, rt: u32, rs: u32, imm: u16)
    by (bit_vector)
    requires
        op < 64,
        rt < 32,
        rs < 32,
    ensures
        main_immediate_word(op, rt, rs, imm) >> 26u32 == op,
        (main_immediate_word(op, rt, rs, imm) >> 21u32) & 31u32 == rs,
        (main_immediate_word(op, rt, rs, imm) >> 16u32) & 31u32 == rt,
        main_immediate_word(op, rt, rs, imm) & 0xFFFFu32 == imm as u32,
{
}

/// The target of a jump sits in its low 26 bits.
pub proof fn lemma_main_jump_fields(op: u32, target_in_words: u32)
    by (bit_vector)
    requires
        op < 64,
        target_in_words < 0x400_0000,
    ensures
        main_jump_word(op, target_in_words) >> 26u32 == op,
        main_jump_word(op, target_in_words) & 0x3FF_FFFFu32 == target_in_words,
{
}

/// The operands of a SPECIAL instruction sit in its fields.
pub proof fn lemma_special_fields(function: u32, sa: u32, rd: u32, rs: u32, rt: u32)
    by (bit_vector)
    requires
        function < 64,
        sa < 32,
        rd < 32,
        rs < 32,
        rt < 32,
    ensures
        special_word(function, sa, rd, rs, rt) >> 26u32 == OP_SPECIAL,
        (special_word(function, sa, rd, rs, rt) >> 21u32) & 31u32 == rs,
        (special_word(function, sa, rd, rs, rt) >> 16u32) & 31u32 == rt,
        (special_word(function, sa, rd, rs, rt) >> 11u32) & 31u32 == rd,
        (special_word(function, sa, rd, rs, rt) >> 6u32) & 31u32 == sa,
        special_word(function, sa, rd, rs, rt) & 63u32 == function,
{
}

/// The operands of a REGIMM instruction sit in its fields.
pub proof fn lemma_regimm_fields(operation: u32, rs: u32, imm: u16)
    by (bit_vector)
    requires
        operation < 32,
        rs < 32,
    ensures
        regimm_word(operation, rs, imm) >> 26u32 == OP_REGIMM,
        (regimm_word(operation, rs, imm) >> 21u32) & 31u32 == rs,
        (regimm_word(operation, rs, imm) >> 16u32) & 31u32 == operation,
        regimm_word(operation, rs, imm) & 0xFFFFu32 == imm as u32,
{
}

/// The operands of a coprocessor 0 move sit in its fields.
pub proof fn lemma_cop0_fields(operation: u32, register: u32, rt: u32)
    by (bit_vector)
    requires
        operation < 32,
        register < 32,
        rt < 32,
    ensures
        cop0_word(operation, register, rt) >> 26u32 == OP_COP0,
        (cop0_word(operation, register, rt) >> 21u32) & 31u32 == operation,
        (cop0_word(operation, register, rt) >> 16u32) & 31u32 == rt,
        (cop0_word(operation, register, rt) >> 11u32) & 31u32 == register,
        cop0_word(operation, register, rt) & 0x7FFu32 == 0,
{
}

/// The operands of a vector load or store sit in its fields; the offset is kept as a 7 bit
/// two's complement number.
pub proof fn lemma_wc2_fields(op: u32, operation: u32, vt: u32, element: u32, imm7: i32, base: u32)
    by (bit_vector)
    requires
        op < 64,
        operation < 32,
        vt < 32,
        element < 16,
        base < 32,
    ensures
        wc2_word(op, operation, vt, element, imm7, base) >> 26u32 == op,
        (wc2_word(op, operation, vt, element, imm7, base) >> 21u32) & 31u32 == base,
        (wc2_word(op, operation, vt, element, imm7, base) >> 16u32) & 31u32 == vt,
        (wc2_word(op, operation, vt, element, imm7, base) >> 11u32) & 31u32 == operation,
        (wc2_word(op, operation, vt, element, imm7, base) >> 7u32) & 15u32 == element,
        wc2_word(op, operation, vt, element, imm7, base) & 0x7Fu32 == (imm7 as u32) & 0x7Fu32,
{
}

/// The operands of a coprocessor 2 move sit in its fields.
pub proof fn lemma_cop2_fields(operation: u32, rd: u32, rt: u32, e: u32)
    by (bit_vector)
    requires
        operation < 32,
        rd < 32,
        rt < 32,
        e < 16,
    ensures
        cop2_word(operation, rd, rt, e) >> 26u32 == OP_COP2,
        (cop2_word(operation, rd, rt, e) >> 21u32) & 31u32 == operation,
        (cop2_word(operation, rd, rt, e) >> 16u32) & 31u32 == rt,
        (cop2_word(operation, rd, rt, e) >> 11u32) & 31u32 == rd,
        (cop2_word(operation, rd, rt, e) >> 7u32) & 15u32 == e,
        cop2_word(operation, rd, rt, e) & 0x7Fu32 == 0,
{
}

/// The operands of a vector computation sit in its fields, and bit 25 marks it as one.
pub proof fn lemma_vector_fields(operation: u32, vd: u32, vt: u32, vs: u32, e: u32)
    by (bit_vector)
    requires
        operation < 64,
        vd < 32,
        vt < 32,
        vs < 32,
        e < 16,
    ensures
        vector_word(operation, vd, vt, vs, e) >> 26u32 == OP_COP2,
        (vector_word(operation, vd, vt, vs, e) >> 25u32) & 1u32 == 1,
        (vector_word(operation, vd, vt, vs, e) >> 21u32) & 15u32 == e,
        (vector_word(operation, vd, vt, vs, e) >> 16u32) & 31u32 == vt,
        (vector_word(operation, vd, vt, vs, e) >> 11u32) & 31u32 == vs,
        (vector_word(operation, vd, vt, vs, e) >> 6u32) & 31u32 == vd,
        vector_word(operation, vd, vt, vs, e) & 63u32 == operation,
{
}

/// The one or two instructions that `write_li` emits leave `imm` in the register: a lone ORI
/// from zero for values below 0x10000, else LUI with the high half, ORed with the low half when
/// that is not zero.
pub proof fn lemma_li_loads_immediate(imm: u32)
    by (bit_vector)
    ensures
        imm & 0xFFFF0000u32 == 0 <==> imm < 0x10000,
        imm < 0x10000 ==> (imm as u16) as u32 == imm,
        imm & 0xFFFF0000u32 == 0 ==> (0u32 | ((imm as u16) as u32)) == imm,
        imm & 0xFFFF0000u32 != 0 && imm & 0xFFFFu32 == 0 ==> (((imm >> 16u32) as u16) as u32) << 16u32 == imm,
        imm & 0xFFFF0000u32 != 0 ==> ((((imm >> 16u32) as u16) as u32) << 16u32) | ((imm as u16) as u32) == imm,
{
}

/// The place that a backwards branch goes to.
pub struct RSMAssemblerJumpTarget {
    offset: usize,
}

impl RSMAssemblerJumpTarget {
    /// The byte offset of the target.
    pub closed spec fn spec_offset(&self) -> usize {
        self.offset
    }

    /// A target at byte offset `offset`.
    pub fn new(offset: usize) -> (r: Self)
        ensures
            r.spec_offset() == offset,
    {
        Self { offset }
    }
}

/// Encodes RSP instructions into consecutive words of SPMEM.
pub struct RSPAssembler {
    writer: SPMEMWriter,
}

impl RSPAssembler {
    /// The writer that records the emitted words.
    pub closed spec fn spec_writer(&self) -> SPMEMWriter {
        self.writer
    }

    /// `after` is `before` with `words` emitted in order.
    pub open spec fn emits(before: Self, after: Self, words: Seq<u32>) -> bool {
        SPMEMWriter::emits(before.spec_writer(), after.spec_writer(), words)
    }

    /// An assembler whose first instruction goes to `start_offset` (IMEM starts at 0x1000).
    pub fn new(start_offset: usize) -> (r: Self)
        ensures
            r.spec_writer().spec_offset() == start_offset & 0x1FFC,
            r.spec_writer().log() == Seq::<(usize, u32)>::empty(),
    {
        Self { writer: SPMEMWriter::new(start_offset) }
    }

    /// The writer that records the emitted words.
    pub fn writer(&self) -> (r: &SPMEMWriter)
        ensures
            *r == self.spec_writer(),
    {
        &self.writer
    }

    /// A jump target at the place of the next instruction.
    pub fn get_jump_target(&self) -> (r: RSMAssemblerJumpTarget)
        ensures
            r.spec_offset() == self.spec_writer().spec_offset(),
    {
        RSMAssemblerJumpTarget::new(self.writer.offset())
    }

    fn emit(&mut self, instruction: u32)
        ensures
            Self::emits(*old(self), *final(self), seq![instruction]),
    {
        self.writer.write(instruction);
    }

    fn write_main_immediate(&mut self, op: u32, rt: GPR, rs: GPR, imm: u16)
        requires
            op < 64,
        ensures
            Self::emits(*old(self), *final(self), seq![main_immediate_word(op, rt.spec_index() as u32, rs.spec_index() as u32, imm)]),
    {
        let instruction: u32 = (imm as u32) | ((rt.index() as u32) << 16u32) | ((rs.index() as u32) << 21u32) | (op << 26u32);
        self.emit(instruction);
    }

    fn write_main_jump(&mut self, op: u32, jump_target_shifted_by_2: u32)
        requires
            op < 64,
            jump_target_shifted_by_2 < 0x400_0000,
        ensures
            Self::emits(*old(self), *final(self), seq![main_jump_word(op, jump_target_shifted_by_2)]),
    {
        self.emit(jump_target_shifted_by_2 | (op << 26u32));
    }

    fn write_special(&mut self, function: u32, sa: u32, rd: GPR, rs: GPR, rt: GPR)
        requires
            function < 64,
            sa <= 0b11111,
        ensures
            Self::emits(*old(self), *final(self), seq![special_word(function, sa, rd.spec_index() as u32, rs.spec_index() as u32, rt.spec_index() as u32)]),
    {
        self.emit(function | (sa << 6u32) | ((rd.index() as u32) << 11u32) | ((rt.index() as u32) << 16u32) | ((rs.index() as u32) << 21u32) | (OP_SPECIAL << 26u32));
    }

    fn write_regimm(&mut self, regimm_op: u32, rs: GPR, imm: u16)
        requires
            regimm_op < 32,
        ensures
            Self::emits(*old(self), *final(self), seq![regimm_word(regimm_op, rs.spec_index() as u32, imm)]),
    {
        self.emit((imm as u32) | (regimm_op << 16u32) | ((rs.index() as u32) << 21u32) | (OP_REGIMM << 26u32));
    }

    fn write_cop0(&mut self, cp0op: u32, cp0register: CP0Register, rt: GPR)
        requires
            cp0op < 32,
        ensures
            Self::emits(*old(self), *final(self), seq![cop0_word(cp0op, cp0register.spec_value(), rt.spec_index() as u32)]),
    {
        self.emit((cp0register.value() << 11u32) | ((rt.index() as u32) << 16u32) | (cp0op << 21u32) | (OP_COP0 << 26u32));
    }

    fn write_wc2(&mut self, op: u32, wc2op: u32, vt: VR, element: E, imm7: i32, base: GPR)
        requires
            op < 64,
            wc2op < 32,
            -64 <= imm7 <= 63,
        ensures
            Self::emits(*old(self), *final(self), seq![wc2_word(op, wc2op, vt.spec_index() as u32, element.spec_index() as u32, imm7, base.spec_index() as u32)]),
    {
        self.emit(((imm7 as u32) & 0x7Fu32) | ((element.index() as u32) << 7u32) | (wc2op << 11u32) | ((vt.index() as u32) << 16u32) | ((base.index() as u32) << 21u32) | (op << 26u32));
    }

    fn write_cop2(&mut self, cp2op: u32, rd: u32, rt: GPR, e: E)
        requires
            cp2op < 32,
            rd < 32,
        ensures
            Self::emits(*old(self), *final(self), seq![cop2_word(cp2op, rd, rt.spec_index() as u32, e.spec_index() as u32)]),
    {
        self.emit(((e.index() as u32) << 7u32) | (rd << 11u32) | ((rt.index() as u32) << 16u32) | (cp2op << 21u32) | (OP_COP2 << 26u32));
    }

    fn write_vector(&mut self, vector_op: u32, vd: VR, vt: VR, vs: VR, e: Element)
        requires
            vector_op < 64,
        ensures
            Self::emits(*old(self), *final(self), seq![vector_word(vector_op, vd.spec_index() as u32, vt.spec_index() as u32, vs.spec_index() as u32, e.spec_index() as u32)]),
    {
        self.emit(vector_op | ((vd.index() as u32) << 6u32) | ((vs.index() as u32) << 11u32) | ((vt.index() as u32) << 16u32) | ((e.index() as u32) << 21u32) | (CP2_VECTOR << 21u32) | (OP_COP2 << 26u32));
    }

    fn write_vector_e(&mut self, vector_op: u32, vd: VR, vt: VR, vs: VR, e: E)
        requires
            vector_op < 64,
        ensures
            Self::emits(*old(self), *final(self), seq![vector_word(vector_op, vd.spec_index() as u32, vt.spec_index() as u32, vs.spec_index() as u32, e.spec_index() as u32)]),
    {
        self.emit(vector_op | ((vd.index() as u32) << 6u32) | ((vs.index() as u32) << 11u32) | ((vt.index() as u32) << 16u32) | ((e.index() as u32) << 21u32) | (CP2_VECTOR << 21u32) | (OP_COP2 << 26u32));
    }

    // Main instructions

    /// Emits ADDI rt, rs, imm.
    pub fn write_addi(&mut self, rt: GPR, rs: GPR, imm: i16)
        ensures
            Self::emits(*old(self), *final(self), seq![main_immediate_word(OP_ADDI, rt.spec_index() as u32, rs.spec_index() as u32, imm as u16)]),
    {
        self.write_main_immediate(OP_ADDI, rt, rs, imm as u16);
    }

    /// Emits ADDIU rt, rs, imm.
    pub fn write_addiu(&mut self, rt: GPR, rs: GPR, imm: i16)
        ensures
            Self::emits(*old(self), *final(self), seq![main_immediate_word(OP_ADDIU, rt.spec_index() as u32, rs.spec_index() as u32, imm as u16)]),
    {
        self.write_main_immediate(OP_ADDIU, rt, rs, imm as u16);
    }

    /// Emits ANDI rt, rs, imm.
    pub fn write_andi(&mut self, rt: GPR, rs: GPR, imm: u16)
        ensures
            Self::emits(*old(self), *final(self), seq![main_immediate_word(OP_ANDI, rt.spec_index() as u32, rs.spec_index() as u32, imm)]),
    {
        self.write_main_immediate(OP_ANDI, rt, rs, imm);
    }

    /// Emits LB rt, rs, imm.
    pub fn write_lb(&mut self, rt: GPR, rs: GPR, imm: i16)
        ensures
            Self::emits(*old(self), *final(self), seq![main_immediate_word(OP_LB, rt.spec_index() as u32, rs.spec_index() as u32, imm as u16)]),
    {
        self.write_main_immediate(OP_LB, rt, rs, imm as u16);
    }

    /// Emits LBU rt, rs, imm.
    pub fn write_lbu(&mut self, rt: GPR, rs: GPR, imm: i16)
        ensures
            Self::emits(*old(self), *final(self), seq![main_immediate_word(OP_LBU, rt.spec_index() as u32, rs.spec_index() as u32, imm as u16)]),
    {
        self.write_main_immediate(OP_LBU, rt, rs, imm as u16);
    }

    /// Emits LH rt, rs, imm.
    pub fn write_lh(&mut self, rt: GPR, rs: GPR, imm: i16)
        ensures
            Self::emits(*old(self), *final(self), seq![main_immediate_word(OP_LH, rt.spec_index() as u32, rs.spec_index() as u32, imm as u16)]),
    {
        self.write_main_immediate(OP_LH, rt, rs, imm as u16);
    }

    /// Emits LHU rt, rs, imm.
    pub fn write_lhu(&mut self, rt: GPR, rs: GPR, imm: i16)
        ensures
            Self::emits(*old(self), *final(self), seq![main_immediate_word(OP_LHU, rt.spec_index() as u32, rs.spec_index() as u32, imm as u16)]),
    {
        self.write_main_immediate(OP_LHU, rt, rs, imm as u16);
    }

    /// Emits LW rt, rs, imm.
    pub fn write_lw(&mut self, rt: GPR, rs: GPR, imm: i16)
        ensures
            Self::emits(*old(self), *final(self), seq![main_immediate_word(OP_LW, rt.spec_index() as u32, rs.spec_index() as u32, imm as u16)]),
    {
        self.write_main_immediate(OP_LW, rt, rs, imm as u16);
    }

    /// Emits LWU rt, rs, imm.
    pub fn write_lwu(&mut self, rt: GPR, rs: GPR, imm: i16)
        ensures
            Self::emits(*old(self), *final(self), seq![main_immediate_word(OP_LWU, rt.spec_index() as u32, rs.spec_index() as u32, imm as u16)]),
    {
        self.write_main_immediate(OP_LWU, rt, rs, imm as u16);
    }

    /// Emits SB rt, rs, imm.
    pub fn write_sb(&mut self, rt: GPR, rs: GPR, imm: i16)
        ensures
            Self::emits(*old(self), *final(self), seq![main_immediate_word(OP_SB, rt.spec_index() as u32, rs.spec_index() as u32, imm as u16)]),
    {
        self.write_main_immediate(OP_SB, rt, rs, imm as u16);
    }

    /// Emits SH rt, rs, imm.
    pub fn write_sh(&mut self, rt: GPR, rs: GPR, imm: i16)
        ensures
            Self::emits(*old(self), *final(self), seq![main_immediate_word(OP_SH, rt.spec_index() as u32, rs.spec_index() as u32, imm as u16)]),
    {
        self.write_main_immediate(OP_SH, rt, rs, imm as u16);
    }

    /// Emits SLTI rt, rs, imm.
    pub fn write_slti(&mut self, rt: GPR, rs: GPR, imm: i16)
        ensures
            Self::emits(*old(self), *final(self), seq![main_immediate_word(OP_SLTI, rt.spec_index() as u32, rs.spec_index() as u32, imm as u16)]),
    {
        self.write_main_immediate(OP_SLTI, rt, rs, imm as u16);
    }

    /// Emits SLTIU rt, rs, imm.
    pub fn write_sltiu(&mut self, rt: GPR, rs: GPR, imm: i16)
        ensures
            Self::emits(*old(self), *final(self), seq![main_immediate_word(OP_SLTIU, rt.spec_index() as u32, rs.spec_index() as u32, imm as u16)]),
    {
        self.write_main_immediate(OP_SLTIU, rt, rs, imm as u16);
    }

    /// Emits SW rt, rs, imm.
    pub fn write_sw(&mut self, rt: GPR, rs: GPR, imm: i16)
        ensures
            Self::emits(*old(self), *final(self), seq![main_immediate_word(OP_SW, rt.spec_index() as u32, rs.spec_index() as u32, imm as u16)]),
    {
        self.write_main_immediate(OP_SW, rt, rs, imm as u16);
    }

    /// Writes a 32 bit value into the target register. Uses 1 or 2 instructions: ORI from R0
    /// when the value fits in 16 bits, else LUI with the high half, followed by ORI with the low
    /// half unless that is zero.
    pub fn write_li(&mut self, rt: GPR, imm: u32)
        ensures
            imm & 0xFFFF0000u32 == 0 ==> Self::emits(*old(self), *final(self), seq![
                main_immediate_word(OP_ORI, rt.spec_index() as u32, 0, imm as u16)]),
            imm & 0xFFFF0000u32 != 0 && imm & 0xFFFFu32 == 0 ==> Self::emits(*old(self), *final(self), seq![
                main_immediate_word(OP_LUI, rt.spec_index() as u32, 0, (imm >> 16u32) as u16)]),
            imm & 0xFFFF0000u32 != 0 && imm & 0xFFFFu32 != 0 ==> Self::emits(*old(self), *final(self), seq![
                main_immediate_word(OP_LUI, rt.spec_index() as u32, 0, (imm >> 16u32) as u16),
                main_immediate_word(OP_ORI, rt.spec_index() as u32, rt.spec_index() as u32, imm as u16)]),
    {
        if (imm & 0xFFFF0000u32) != 0 {
            self.write_lui(rt, (imm >> 16u32) as u16);
            if (imm & 0xFFFFu32) != 0 {
                let ghost mid = *self;
                self.write_ori(rt, rt, imm as u16);
                proof {
                    lemma_emits_concat(*old(self), mid, *self,
                        seq![main_immediate_word(OP_LUI, rt.spec_index() as u32, 0, (imm >> 16u32) as u16)],
                        seq![main_immediate_word(OP_ORI, rt.spec_index() as u32, rt.spec_index() as u32, imm as u16)]);
                    assert(seq![main_immediate_word(OP_LUI, rt.spec_index() as u32, 0, (imm >> 16u32) as u16)]
                        + seq![main_immediate_word(OP_ORI, rt.spec_index() as u32, rt.spec_index() as u32, imm as u16)]
                        =~= seq![main_immediate_word(OP_LUI, rt.spec_index() as u32, 0, (imm >> 16u32) as u16),
                        main_immediate_word(OP_ORI, rt.spec_index() as u32, rt.spec_index() as u32, imm as u16)]);
                }
            }
        } else {
            self.write_ori(rt, GPR::R0, imm as u16);
        }
    }

    /// Emits LUI rt, imm.
    pub fn write_lui(&mut self, rt: GPR, imm: u16)
        ensures
            Self::emits(*old(self), *final(self), seq![main_immediate_word(OP_LUI, rt.spec_index() as u32, 0, imm)]),
    {
        self.write_main_immediate(OP_LUI, rt, GPR::R0, imm);
    }

    /// Emits ORI rt, rs, imm.
    pub fn write_ori(&mut self, rt: GPR, rs: GPR, imm: u16)
        ensures
            Self::emits(*old(self), *final(self), seq![main_immediate_word(OP_ORI, rt.spec_index() as u32, rs.spec_index() as u32, imm)]),
    {
        self.write_main_immediate(OP_ORI, rt, rs, imm);
    }

    /// Emits XORI rt, rs, imm.
    pub fn write_xori(&mut self, rt: GPR, rs: GPR, imm: u16)
        ensures
            Self::emits(*old(self), *final(self), seq![main_immediate_word(OP_XORI, rt.spec_index() as u32, rs.spec_index() as u32, imm)]),
    {
        self.write_main_immediate(OP_XORI, rt, rs, imm);
    }

    /// Emits J to a byte offset, which must be a whole instruction.
    pub fn write_j(&mut self, destination_as_byte_offset: u32)
        requires
            (destination_as_byte_offset & 3) == 0,
            destination_as_byte_offset >> 2u32 < 0x400_0000,
        ensures
            Self::emits(*old(self), *final(self), seq![main_jump_word(OP_J, destination_as_byte_offset >> 2u32)]),
    {
        self.write_main_jump(OP_J, destination_as_byte_offset >> 2);
    }

    /// Emits JAL to a byte offset, which must be a whole instruction.
    pub fn write_jal(&mut self, destination_as_byte_offset: u32)
        requires
            (destination_as_byte_offset & 3) == 0,
            destination_as_byte_offset >> 2u32 < 0x400_0000,
        ensures
            Self::emits(*old(self), *final(self), seq![main_jump_word(OP_JAL, destination_as_byte_offset >> 2u32)]),
    {
        self.write_main_jump(OP_JAL, destination_as_byte_offset >> 2);
    }

    /// Emits BEQ rt, rs, offset.
    pub fn write_beq(&mut self, rt: GPR, rs: GPR, offset_as_instruction_count: i16)
        ensures
            Self::emits(*old(self), *final(self), seq![main_immediate_word(OP_BEQ, rt.spec_index() as u32, rs.spec_index() as u32, offset_as_instruction_count as u16)]),
    {
        self.write_main_immediate(OP_BEQ, rt, rs, offset_as_instruction_count as u16);
    }

    /// Emits BNE rt, rs, offset.
    pub fn write_bne(&mut self, rt: GPR, rs: GPR, offset_as_instruction_count: i16)
        ensures
            Self::emits(*old(self), *final(self), seq![main_immediate_word(OP_BNE, rt.spec_index() as u32, rs.spec_index() as u32, offset_as_instruction_count as u16)]),
    {
        self.write_main_immediate(OP_BNE, rt, rs, offset_as_instruction_count as u16);
    }

    /// Emits BLEZ rs, offset.
    pub fn write_blez(&mut self, rs: GPR, offset_as_instruction_count: i16)
        ensures
            Self::emits(*old(self), *final(self), seq![main_immediate_word(OP_BLEZ, 0, rs.spec_index() as u32, offset_as_instruction_count as u16)]),
    {
        self.write_main_immediate(OP_BLEZ, GPR::R0, rs, offset_as_instruction_count as u16);
    }

    /// Emits BGTZ rs, offset.
    pub fn write_bgtz(&mut self, rs: GPR, offset_as_instruction_count: i16)
        ensures
            Self::emits(*old(self), *final(self), seq![main_immediate_word(OP_BGTZ, 0, rs.spec_index() as u32, offset_as_instruction_count as u16)]),
    {
        self.write_main_immediate(OP_BGTZ, GPR::R0, rs, offset_as_instruction_count as u16);
    }

    /// Emits BGTZ rs back to `target`. The offset is computed modulo the 4 KiB of IMEM, as the
    /// RSP's program counter wraps there.
    pub fn write_bgtz_backwards(&mut self, rs: GPR, target: &RSMAssemblerJumpTarget)
        ensures
            Self::emits(*old(self), *final(self), seq![main_immediate_word(OP_BGTZ, 0, rs.spec_index() as u32,
                backwards_branch_offset(target.spec_offset(), old(self).spec_writer().spec_offset() as usize) as u16)]),
    {
        let current = self.writer.offset();
        proof {
            lemma_distance_bits(target.offset, current, 0);
        }
        let distance = ((target.offset & 0xFFF) + 0x1000 - (current & 0xFFF)) & 0xFFF;
        proof {
            lemma_distance_bits(target.offset, current, distance);
        }
        let offset = ((distance >> 2) as i16) - 1;
        self.write_bgtz(rs, offset);
    }

    // COP0

    /// Emits MFC0 rt, cp0register.
    pub fn write_mfc0(&mut self, cp0register: CP0Register, rt: GPR)
        ensures
            Self::emits(*old(self), *final(self), seq![cop0_word(CP0_MFC0, cp0register.spec_value(), rt.spec_index() as u32)]),
    {
        self.write_cop0(CP0_MFC0, cp0register, rt);
    }

    /// Emits MTC0 rt, cp0register.
    pub fn write_mtc0(&mut self, cp0register: CP0Register, rt: GPR)
        ensures
            Self::emits(*old(self), *final(self), seq![cop0_word(CP0_MTC0, cp0register.spec_value(), rt.spec_index() as u32)]),
    {
        self.write_cop0(CP0_MTC0, cp0register, rt);
    }

    // COP2

    /// Emits CTC2 rt, flags_register.
    pub fn write_ctc2(&mut self, flags_register: CP2FlagsRegister, rt: GPR)
        ensures
            Self::emits(*old(self), *final(self), seq![cop2_word(CP2_CTC2, flags_register.spec_value(), rt.spec_index() as u32, 0)]),
    {
        self.write_ctc2_any_index(flags_register.value(), rt);
    }

    /// Emits CTC2 with any register number below 32.
    pub fn write_ctc2_any_index(&mut self, flags_register: u32, rt: GPR)
        requires
            flags_register < 32,
        ensures
            Self::emits(*old(self), *final(self), seq![cop2_word(CP2_CTC2, flags_register, rt.spec_index() as u32, 0)]),
    {
        self.write_cop2(CP2_CTC2, flags_register, rt, E::_0);
    }

    /// Emits CFC2 rt, flags_register.
    pub fn write_cfc2(&mut self, flags_register: CP2FlagsRegister, rt: GPR)
        ensures
            Self::emits(*old(self), *final(self), seq![cop2_word(CP2_CFC2, flags_register.spec_value(), rt.spec_index() as u32, 0)]),
    {
        self.write_cfc2_any_index(flags_register.value(), rt);
    }

    /// Emits CFC2 with any register number below 32.
    pub fn write_cfc2_any_index(&mut self, flags_register: u32, rt: GPR)
        requires
            flags_register < 32,
        ensures
            Self::emits(*old(self), *final(self), seq![cop2_word(CP2_CFC2, flags_register, rt.spec_index() as u32, 0)]),
    {
        self.write_cop2(CP2_CFC2, flags_register, rt, E::_0);
    }

    /// Emits MFC2 rt, vd[e].
    pub fn write_mfc2(&mut self, vd: VR, rt: GPR, e: E)
        ensures
            Self::emits(*old(self), *final(self), seq![cop2_word(CP2_MFC2, vd.spec_index() as u32, rt.spec_index() as u32, e.spec_index() as u32)]),
    {
        self.write_cop2(CP2_MFC2, vd.index() as u32, rt, e);
    }

    /// Emits MTC2 rt, vd[e].
    pub fn write_mtc2(&mut self, vd: VR, rt: GPR, e: E)
        ensures
            Self::emits(*old(self), *final(self), seq![cop2_word(CP2_MTC2, vd.spec_index() as u32, rt.spec_index() as u32, e.spec_index() as u32)]),
    {
        self.write_cop2(CP2_MTC2, vd.index() as u32, rt, e);
    }

    // Special instructions

    /// Emits SLL rd, rt, sa.
    pub fn write_sll(&mut self, rd: GPR, rt: GPR, sa: u32)
        requires
            sa <= 0b11111,
        ensures
            Self::emits(*old(self), *final(self), seq![special_word(SPECIAL_SLL, sa, rd.spec_index() as u32, 0, rt.spec_index() as u32)]),
    {
        self.write_special(SPECIAL_SLL, sa, rd, GPR::R0, rt);
    }

    /// Emits SRA rd, rt, sa.
    pub fn write_sra(&mut self, rd: GPR, rt: GPR, sa: u32)
        requires
            sa <= 0b11111,
        ensures
            Self::emits(*old(self), *final(self), seq![special_word(SPECIAL_SRA, sa, rd.spec_index() as u32, 0, rt.spec_index() as u32)]),
    {
        self.write_special(SPECIAL_SRA, sa, rd, GPR::R0, rt);
    }

    /// Emits SRL rd, rt, sa.
    pub fn write_srl(&mut self, rd: GPR, rt: GPR, sa: u32)
        requires
            sa <= 0b11111,
        ensures
            Self::emits(*old(self), *final(self), seq![special_word(SPECIAL_SRL, sa, rd.spec_index() as u32, 0, rt.spec_index() as u32)]),
    {
        self.write_special(SPECIAL_SRL, sa, rd, GPR::R0, rt);
    }

    /// Emits SLLV rd, rt, rs.
    pub fn write_sllv(&mut self, rd: GPR, rt: GPR, rs: GPR)
        ensures
            Self::emits(*old(self), *final(self), seq![special_word(SPECIAL_SLLV, 0, rd.spec_index() as u32, rs.spec_index() as u32, rt.spec_index() as u32)]),
    {
        self.write_special(SPECIAL_SLLV, 0, rd, rs, rt);
    }

    /// Emits SRAV rd, rt, rs.
    pub fn write_srav(&mut self, rd: GPR, rt: GPR, rs: GPR)
        ensures
            Self::emits(*old(self), *final(self), seq![special_word(SPECIAL_SRAV, 0, rd.spec_index() as u32, rs.spec_index() as u32, rt.spec_index() as u32)]),
    {
        self.write_special(SPECIAL_SRAV, 0, rd, rs, rt);
    }

    /// Emits SRLV rd, rt, rs.
    pub fn write_srlv(&mut self, rd: GPR, rt: GPR, rs: GPR)
        ensures
            Self::emits(*old(self), *final(self), seq![special_word(SPECIAL_SRLV, 0, rd.spec_index() as u32, rs.spec_index() as u32, rt.spec_index() as u32)]),
    {
        self.write_special(SPECIAL_SRLV, 0, rd, rs, rt);
    }

    /// Emits NOP (SLL R0, R0, 0).
    pub fn write_nop(&mut self)
        ensures
            Self::emits(*old(self), *final(self), seq![special_word(SPECIAL_SLL, 0, 0, 0, 0)]),
    {
        self.write_sll(GPR::R0, GPR::R0, 0);
    }

    /// Emits ADD rd, rs, rt (the arguments are given as rd, rt, rs).
    pub fn write_add(&mut self, rd: GPR, rt: GPR, rs: GPR)
        ensures
            Self::emits(*old(self), *final(self), seq![special_word(SPECIAL_ADD, 0, rd.spec_index() as u32, rs.spec_index() as u32, rt.spec_index() as u32)]),
    {
        self.write_special(SPECIAL_ADD, 0, rd, rs, rt);
    }

    /// Emits ADDU rd, rs, rt (the arguments are given as rd, rt, rs).
    pub fn write_addu(&mut self, rd: GPR, rt: GPR, rs: GPR)
        ensures
            Self::emits(*old(self), *final(self), seq![special_word(SPECIAL_ADDU, 0, rd.spec_index() as u32, rs.spec_index() as u32, rt.spec_index() as u32)]),
    {
        self.write_special(SPECIAL_ADDU, 0, rd, rs, rt);
    }

    /// Emits SUB rd, rs, rt (the arguments are given as rd, rt, rs).
    pub fn write_sub(&mut self, rd: GPR, rt: GPR, rs: GPR)
        ensures
            Self::emits(*old(self), *final(self), seq![special_word(SPECIAL_SUB, 0, rd.spec_index() as u32, rs.spec_index() as u32, rt.spec_index() as u32)]),
    {
        self.write_special(SPECIAL_SUB, 0, rd, rs, rt);
    }

    /// Emits SUBU rd, rs, rt (the arguments are given as rd, rt, rs).
    pub fn write_subu(&mut self, rd: GPR, rt: GPR, rs: GPR)
        ensures
            Self::emits(*old(self), *final(self), seq![special_word(SPECIAL_SUBU, 0, rd.spec_index() as u32, rs.spec_index() as u32, rt.spec_index() as u32)]),
    {
        self.write_special(SPECIAL_SUBU, 0, rd, rs, rt);
    }

    /// Emits AND rd, rs, rt (the arguments are given as rd, rt, rs).
    pub fn write_and(&mut self, rd: GPR, rt: GPR, rs: GPR)
        ensures
            Self::emits(*old(self), *final(self), seq![special_word(SPECIAL_AND, 0, rd.spec_index() as u32, rs.spec_index() as u32, rt.spec_index() as u32)]),
    {
        self.write_special(SPECIAL_AND, 0, rd, rs, rt);
    }

    /// Emits BREAK.
    pub fn write_break(&mut self)
        ensures
            Self::emits(*old(self), *final(self), seq![special_word(SPECIAL_BREAK, 0, 0, 0, 0)]),
    {
        self.write_special(SPECIAL_BREAK, 0, GPR::R0, GPR::R0, GPR::R0);
    }

    /// Emits NOR rd, rs, rt.
    pub fn write_nor(&mut self, rd: GPR, rs: GPR, rt: GPR)
        ensures
            Self::emits(*old(self), *final(self), seq![special_word(SPECIAL_NOR, 0, rd.spec_index() as u32, rs.spec_index() as u32, rt.spec_index() as u32)]),
    {
        self.write_special(SPECIAL_NOR, 0, rd, rs, rt);
    }

    /// Emits OR rd, rs, rt.
    pub fn write_or(&mut self, rd: GPR, rs: GPR, rt: GPR)
        ensures
            Self::emits(*old(self), *final(self), seq![special_word(SPECIAL_OR, 0, rd.spec_index() as u32, rs.spec_index() as u32, rt.spec_index() as u32)]),
    {
        self.write_special(SPECIAL_OR, 0, rd, rs, rt);
    }

    /// Emits XOR rd, rs, rt.
    pub fn write_xor(&mut self, rd: GPR, rs: GPR, rt: GPR)
        ensures
            Self::emits(*old(self), *final(self), seq![special_word(SPECIAL_XOR, 0, rd.spec_index() as u32, rs.spec_index() as u32, rt.spec_index() as u32)]),
    {
        self.write_special(SPECIAL_XOR, 0, rd, rs, rt);
    }

    /// Emits SLT rd, rs, rt.
    pub fn write_slt(&mut self, rd: GPR, rs: GPR, rt: GPR)
        ensures
            Self::emits(*old(self), *final(self), seq![special_word(SPECIAL_SLT, 0, rd.spec_index() as u32, rs.spec_index() as u32, rt.spec_index() as u32)]),
    {
        self.write_special(SPECIAL_SLT, 0, rd, rs, rt);
    }

    /// Emits SLTU rd, rs, rt.
    pub fn write_sltu(&mut self, rd: GPR, rs: GPR, rt: GPR)
        ensures
            Self::emits(*old(self), *final(self), seq![special_word(SPECIAL_SLTU, 0, rd.spec_index() as u32, rs.spec_index() as u32, rt.spec_index() as u32)]),
    {
        self.write_special(SPECIAL_SLTU, 0, rd, rs, rt);
    }

    /// Emits JR rs.
    pub fn write_jr(&mut self, rs: GPR)
        ensures
            Self::emits(*old(self), *final(self), seq![special_word(SPECIAL_JR, 0, 0, rs.spec_index() as u32, 0)]),
    {
        self.write_special(SPECIAL_JR, 0, GPR::R0, rs, GPR::R0);
    }

    /// Emits JALR ra, target.
    pub fn write_jalr(&mut self, ra: GPR, target: GPR)
        ensures
            Self::emits(*old(self), *final(self), seq![special_word(SPECIAL_JALR, 0, ra.spec_index() as u32, target.spec_index() as u32, 0)]),
    {
        self.write_special(SPECIAL_JALR, 0, ra, target, GPR::R0);
    }

    // Regimm instructions

    /// Emits BLTZ rs, offset.
    pub fn write_bltz(&mut self, rs: GPR, offset_as_instruction_count: i16)
        ensures
            Self::emits(*old(self), *final(self), seq![regimm_word(REGIMM_BLTZ, rs.spec_index() as u32, offset_as_instruction_count as u16)]),
    {
        self.write_regimm(REGIMM_BLTZ, rs, offset_as_instruction_count as u16);
    }

    /// Emits BGEZ rs, offset.
    pub fn write_bgez(&mut self, rs: GPR, offset_as_instruction_count: i16)
        ensures
            Self::emits(*old(self), *final(self), seq![regimm_word(REGIMM_BGEZ, rs.spec_index() as u32, offset_as_instruction_count as u16)]),
    {
        self.write_regimm(REGIMM_BGEZ, rs, offset_as_instruction_count as u16);
    }

    /// Emits BLTZAL rs, offset.
    pub fn write_bltzal(&mut self, rs: GPR, offset_as_instruction_count: i16)
        ensures
            Self::emits(*old(self), *final(self), seq![regimm_word(REGIMM_BLTZAL, rs.spec_index() as u32, offset_as_instruction_count as u16)]),
    {
        self.write_regimm(REGIMM_BLTZAL, rs, offset_as_instruction_count as u16);
    }

    /// Emits BGEZAL rs, offset.
    pub fn write_bgezal(&mut self, rs: GPR, offset_as_instruction_count: i16)
        ensures
            Self::emits(*old(self), *final(self), seq![regimm_word(REGIMM_BGEZAL, rs.spec_index() as u32, offset_as_instruction_count as u16)]),
    {
        self.write_regimm(REGIMM_BGEZAL, rs, offset_as_instruction_count as u16);
    }

    // Vector load/store instructions

    /// Emits LBV vt[element], offset(base); the offset is in bytes and must fit in 7 bits.
    pub fn write_lbv(&mut self, vt: VR, element: E, offset: i32, base: GPR)
        requires
            -64 <= offset <= 63,
        ensures
            Self::emits(*old(self), *final(self), seq![wc2_word(OP_LWC2, WC2_BV, vt.spec_index() as u32, element.spec_index() as u32, offset, base.spec_index() as u32)]),
    {
        self.write_wc2(OP_LWC2, WC2_BV, vt, element, offset, base);
    }

    /// Emits LDV vt[element], offset(base); the offset is in bytes, a multiple of 8, and is stored divided by 8 in 7 bits.
    pub fn write_ldv(&mut self, vt: VR, element: E, offset: i32, base: GPR)
        requires
            (offset & 7) == 0,
            -64 <= (offset >> 3i32) <= 63,
        ensures
            Self::emits(*old(self), *final(self), seq![wc2_word(OP_LWC2, WC2_DV, vt.spec_index() as u32, element.spec_index() as u32, offset >> 3i32, base.spec_index() as u32)]),
    {
        self.write_wc2(OP_LWC2, WC2_DV, vt, element, offset >> 3, base);
    }

    /// Emits LFV vt[element], offset(base); the offset is in bytes, a multiple of 16, and is stored divided by 16 in 7 bits.
    pub fn write_lfv(&mut self, vt: VR, element: E, offset: i32, base: GPR)
        requires
            (offset & 15) == 0,
            -64 <= (offset >> 4i32) <= 63,
        ensures
            Self::emits(*old(self), *final(self), seq![wc2_word(OP_LWC2, WC2_FV, vt.spec_index() as u32, element.spec_index() as u32, offset >> 4i32, base.spec_index() as u32)]),
    {
        self.write_wc2(OP_LWC2, WC2_FV, vt, element, offset >> 4, base);
    }

    /// Emits LHV vt[element], offset(base); the offset is in bytes, a multiple of 16, and is stored divided by 16 in 7 bits.
    pub fn write_lhv(&mut self, vt: VR, element: E, offset: i32, base: GPR)
        requires
            (offset & 15) == 0,
            -64 <= (offset >> 4i32) <= 63,
        ensures
            Self::emits(*old(self), *final(self), seq![wc2_word(OP_LWC2, WC2_HV, vt.spec_index() as u32, element.spec_index() as u32, offset >> 4i32, base.spec_index() as u32)]),
    {
        self.write_wc2(OP_LWC2, WC2_HV, vt, element, offset >> 4, base);
    }

    /// Emits LLV vt[element], offset(base); the offset is in bytes, a multiple of 4, and is stored divided by 4 in 7 bits.
    pub fn write_llv(&mut self, vt: VR, element: E, offset: i32, base: GPR)
        requires
            (offset & 3) == 0,
            -64 <= (offset >> 2i32) <= 63,
        ensures
            Self::emits(*old(self), *final(self), seq![wc2_word(OP_LWC2, WC2_LV, vt.spec_index() as u32, element.spec_index() as u32, offset >> 2i32, base.spec_index() as u32)]),
    {
        self.write_wc2(OP_LWC2, WC2_LV, vt, element, offset >> 2, base);
    }

    /// Emits LPV vt[element], offset(base); the offset is in bytes, a multiple of 8, and is stored divided by 8 in 7 bits.
    pub fn write_lpv(&mut self, vt: VR, element: E, offset: i32, base: GPR)
        requires
            (offset & 7) == 0,
            -64 <= (offset >> 3i32) <= 63,
        ensures
            Self::emits(*old(self), *final(self), seq![wc2_word(OP_LWC2, WC2_PV, vt.spec_index() as u32, element.spec_index() as u32, offset >> 3i32, base.spec_index() as u32)]),
    {
        self.write_wc2(OP_LWC2, WC2_PV, vt, element, offset >> 3, base);
    }

    /// Emits LQV vt[element], offset(base); the offset is in bytes, a multiple of 16, and is stored divided by 16 in 7 bits.
    pub fn write_lqv(&mut self, vt: VR, element: E, offset: i32, base: GPR)
        requires
            (offset & 15) == 0,
            -64 <= (offset >> 4i32) <= 63,
        ensures
            Self::emits(*old(self), *final(self), seq![wc2_word(OP_LWC2, WC2_QV, vt.spec_index() as u32, element.spec_index() as u32, offset >> 4i32, base.spec_index() as u32)]),
    {
        self.write_wc2(OP_LWC2, WC2_QV, vt, element, offset >> 4, base);
    }

    /// Emits LRV vt[element], offset(base); the offset is in bytes, a multiple of 16, and is stored divided by 16 in 7 bits.
    pub fn write_lrv(&mut self, vt: VR, element: E, offset: i32, base: GPR)
        requires
            (offset & 15) == 0,
            -64 <= (offset >> 4i32) <= 63,
        ensures
            Self::emits(*old(self), *final(self), seq![wc2_word(OP_LWC2, WC2_RV, vt.spec_index() as u32, element.spec_index() as u32, offset >> 4i32, base.spec_index() as u32)]),
    {
        self.write_wc2(OP_LWC2, WC2_RV, vt, element, offset >> 4, base);
    }

    /// Emits LSV vt[element], offset(base); the offset is in bytes, a multiple of 2, and is stored divided by 2 in 7 bits.
    pub fn write_lsv(&mut self, vt: VR, element: E, offset: i32, base: GPR)
        requires
            (offset & 1) == 0,
            -64 <= (offset >> 1i32) <= 63,
        ensures
            Self::emits(*old(self), *final(self), seq![wc2_word(OP_LWC2, WC2_SV, vt.spec_index() as u32, element.spec_index() as u32, offset >> 1i32, base.spec_index() as u32)]),
    {
        self.write_wc2(OP_LWC2, WC2_SV, vt, element, offset >> 1, base);
    }

    /// Emits LTV vt[element], offset(base); the offset is in bytes, a multiple of 16, and is stored divided by 16 in 7 bits.
    pub fn write_ltv(&mut self, vt: VR, element: E, offset: i32, base: GPR)
        requires
            (offset & 15) == 0,
            -64 <= (offset >> 4i32) <= 63,
        ensures
            Self::emits(*old(self), *final(self), seq![wc2_word(OP_LWC2, WC2_TV, vt.spec_index() as u32, element.spec_index() as u32, offset >> 4i32, base.spec_index() as u32)]),
    {
        self.write_wc2(OP_LWC2, WC2_TV, vt, element, offset >> 4, base);
    }

    /// Emits LUV vt[element], offset(base); the offset is in bytes, a multiple of 8, and is stored divided by 8 in 7 bits.
    pub fn write_luv(&mut self, vt: VR, element: E, offset: i32, base: GPR)
        requires
            (offset & 7) == 0,
            -64 <= (offset >> 3i32) <= 63,
        ensures
            Self::emits(*old(self), *final(self), seq![wc2_word(OP_LWC2, WC2_UV, vt.spec_index() as u32, element.spec_index() as u32, offset >> 3i32, base.spec_index() as u32)]),
    {
        self.write_wc2(OP_LWC2, WC2_UV, vt, element, offset >> 3, base);
    }

    /// Emits LWV vt[element], offset(base); the offset is in bytes, a multiple of 16, and is stored divided by 16 in 7 bits.
    pub fn write_lwv(&mut self, vt: VR, element: E, offset: i32, base: GPR)
        requires
            (offset & 15) == 0,
            -64 <= (offset >> 4i32) <= 63,
        ensures
            Self::emits(*old(self), *final(self), seq![wc2_word(OP_LWC2, WC2_WV, vt.spec_index() as u32, element.spec_index() as u32, offset >> 4i32, base.spec_index() as u32)]),
    {
        self.write_wc2(OP_LWC2, WC2_WV, vt, element, offset >> 4, base);
    }

    /// Emits SQV vt[element], offset(base); the offset is in bytes, a multiple of 16, and is stored divided by 16 in 7 bits.
    pub fn write_sqv(&mut self, vt: VR, element: E, offset: i32, base: GPR)
        requires
            (offset & 15) == 0,
            -64 <= (offset >> 4i32) <= 63,
        ensures
            Self::emits(*old(self), *final(self), seq![wc2_word(OP_SWC2, WC2_QV, vt.spec_index() as u32, element.spec_index() as u32, offset >> 4i32, base.spec_index() as u32)]),
    {
        self.write_wc2(OP_SWC2, WC2_QV, vt, element, offset >> 4, base);
    }

    // Regular vector instructions

    /// Emits VABS vd, vs, vt[e].
    pub fn write_vabs(&mut self, vd: VR, vt: VR, vs: VR, e: Element)
        ensures
            Self::emits(*old(self), *final(self), seq![vector_word(VECTOR_VABS, vd.spec_index() as u32, vt.spec_index() as u32, vs.spec_index() as u32, e.spec_index() as u32)]),
    {
        self.write_vector(VECTOR_VABS, vd, vt, vs, e);
    }

    /// Emits VACCB vd, vs, vt[e].
    pub fn write_vaccb(&mut self, vd: VR, vt: VR, vs: VR, e: Element)
        ensures
            Self::emits(*old(self), *final(self), seq![vector_word(VECTOR_VACCB, vd.spec_index() as u32, vt.spec_index() as u32, vs.spec_index() as u32, e.spec_index() as u32)]),
    {
        self.write_vector(VECTOR_VACCB, vd, vt, vs, e);
    }

    /// Emits VADD vd, vs, vt[e].
    pub fn write_vadd(&mut self, vd: VR, vt: VR, vs: VR, e: Element)
        ensures
            Self::emits(*old(self), *final(self), seq![vector_word(VECTOR_VADD, vd.spec_index() as u32, vt.spec_index() as u32, vs.spec_index() as u32, e.spec_index() as u32)]),
    {
        self.write_vector(VECTOR_VADD, vd, vt, vs, e);
    }

    /// Emits VADDB vd, vs, vt[e].
    pub fn write_vaddb(&mut self, vd: VR, vt: VR, vs: VR, e: Element)
        ensures
            Self::emits(*old(self), *final(self), seq![vector_word(VECTOR_VADDB, vd.spec_index() as u32, vt.spec_index() as u32, vs.spec_index() as u32, e.spec_index() as u32)]),
    {
        self.write_vector(VECTOR_VADDB, vd, vt, vs, e);
    }

    /// Emits VADDC vd, vs, vt[e].
    pub fn write_vaddc(&mut self, vd: VR, vt: VR, vs: VR, e: Element)
        ensures
            Self::emits(*old(self), *final(self), seq![vector_word(VECTOR_VADDC, vd.spec_index() as u32, vt.spec_index() as u32, vs.spec_index() as u32, e.spec_index() as u32)]),
    {
        self.write_vector(VECTOR_VADDC, vd, vt, vs, e);
    }

    /// Emits VAND vd, vs, vt[e].
    pub fn write_vand(&mut self, vd: VR, vt: VR, vs: VR, e: Element)
        ensures
            Self::emits(*old(self), *final(self), seq![vector_word(VECTOR_VAND, vd.spec_index() as u32, vt.spec_index() as u32, vs.spec_index() as u32, e.spec_index() as u32)]),
    {
        self.write_vector(VECTOR_VAND, vd, vt, vs, e);
    }

    /// Emits VCH vd, vs, vt[e].
    pub fn write_vch(&mut self, vd: VR, vt: VR, vs: VR, e: Element)
        ensures
            Self::emits(*old(self), *final(self), seq![vector_word(VECTOR_VCH, vd.spec_index() as u32, vt.spec_index() as u32, vs.spec_index() as u32, e.spec_index() as u32)]),
    {
        self.write_vector(VECTOR_VCH, vd, vt, vs, e);
    }

    /// Emits VCL vd, vs, vt[e].
    pub fn write_vcl(&mut self, vd: VR, vt: VR, vs: VR, e: Element)
        ensures
            Self::emits(*old(self), *final(self), seq![vector_word(VECTOR_VCL, vd.spec_index() as u32, vt.spec_index() as u32, vs.spec_index() as u32, e.spec_index() as u32)]),
    {
        self.write_vector(VECTOR_VCL, vd, vt, vs, e);
    }

    /// Emits VCR vd, vs, vt[e].
    pub fn write_vcr(&mut self, vd: VR, vt: VR, vs: VR, e: Element)
        ensures
            Self::emits(*old(self), *final(self), seq![vector_word(VECTOR_VCR, vd.spec_index() as u32, vt.spec_index() as u32, vs.spec_index() as u32, e.spec_index() as u32)]),
    {
        self.write_vector(VECTOR_VCR, vd, vt, vs, e);
    }

    /// Emits VEXTN vd, vs, vt[e].
    pub fn write_vextn(&mut self, vd: VR, vt: VR, vs: VR, e: Element)
        ensures
            Self::emits(*old(self), *final(self), seq![vector_word(VECTOR_VEXTN, vd.spec_index() as u32, vt.spec_index() as u32, vs.spec_index() as u32, e.spec_index() as u32)]),
    {
        self.write_vector(VECTOR_VEXTN, vd, vt, vs, e);
    }

    /// Emits VEXTQ vd, vs, vt[e].
    pub fn write_vextq(&mut self, vd: VR, vt: VR, vs: VR, e: Element)
        ensures
            Self::emits(*old(self), *final(self), seq![vector_word(VECTOR_VEXTQ, vd.spec_index() as u32, vt.spec_index() as u32, vs.spec_index() as u32, e.spec_index() as u32)]),
    {
        self.write_vector(VECTOR_VEXTQ, vd, vt, vs, e);
    }

    /// Emits VEXTT vd, vs, vt[e].
    pub fn write_vextt(&mut self, vd: VR, vt: VR, vs: VR, e: Element)
        ensures
            Self::emits(*old(self), *final(self), seq![vector_word(VECTOR_VEXTT, vd.spec_index() as u32, vt.spec_index() as u32, vs.spec_index() as u32, e.spec_index() as u32)]),
    {
        self.write_vector(VECTOR_VEXTT, vd, vt, vs, e);
    }

    /// Emits VLT vd, vs, vt[e].
    pub fn write_vlt(&mut self, vd: VR, vt: VR, vs: VR, e: Element)
        ensures
            Self::emits(*old(self), *final(self), seq![vector_word(VECTOR_VLT, vd.spec_index() as u32, vt.spec_index() as u32, vs.spec_index() as u32, e.spec_index() as u32)]),
    {
        self.write_vector(VECTOR_VLT, vd, vt, vs, e);
    }

    /// Emits VEQ vd, vs, vt[e].
    pub fn write_veq(&mut self, vd: VR, vt: VR, vs: VR, e: Element)
        ensures
            Self::emits(*old(self), *final(self), seq![vector_word(VECTOR_VEQ, vd.spec_index() as u32, vt.spec_index() as u32, vs.spec_index() as u32, e.spec_index() as u32)]),
    {
        self.write_vector(VECTOR_VEQ, vd, vt, vs, e);
    }

    /// Emits VGE vd, vs, vt[e].
    pub fn write_vge(&mut self, vd: VR, vt: VR, vs: VR, e: Element)
        ensures
            Self::emits(*old(self), *final(self), seq![vector_word(VECTOR_VGE, vd.spec_index() as u32, vt.spec_index() as u32, vs.spec_index() as u32, e.spec_index() as u32)]),
    {
        self.write_vector(VECTOR_VGE, vd, vt, vs, e);
    }

    /// Emits VINSN vd, vs, vt[e].
    pub fn write_vinsn(&mut self, vd: VR, vt: VR, vs: VR, e: Element)
        ensures
            Self::emits(*old(self), *final(self), seq![vector_word(VECTOR_VINSN, vd.spec_index() as u32, vt.spec_index() as u32, vs.spec_index() as u32, e.spec_index() as u32)]),
    {
        self.write_vector(VECTOR_VINSN, vd, vt, vs, e);
    }

    /// Emits VINSQ vd, vs, vt[e].
    pub fn write_vinsq(&mut self, vd: VR, vt: VR, vs: VR, e: Element)
        ensures
            Self::emits(*old(self), *final(self), seq![vector_word(VECTOR_VINSQ, vd.spec_index() as u32, vt.spec_index() as u32, vs.spec_index() as u32, e.spec_index() as u32)]),
    {
        self.write_vector(VECTOR_VINSQ, vd, vt, vs, e);
    }

    /// Emits VINST vd, vs, vt[e].
    pub fn write_vinst(&mut self, vd: VR, vt: VR, vs: VR, e: Element)
        ensures
            Self::emits(*old(self), *final(self), seq![vector_word(VECTOR_VINST, vd.spec_index() as u32, vt.spec_index() as u32, vs.spec_index() as u32, e.spec_index() as u32)]),
    {
        self.write_vector(VECTOR_VINST, vd, vt, vs, e);
    }

    /// Emits VMACF vd, vs, vt[e].
    pub fn write_vmacf(&mut self, vd: VR, vt: VR, vs: VR, e: Element)
        ensures
            Self::emits(*old(self), *final(self), seq![vector_word(VECTOR_VMACF, vd.spec_index() as u32, vt.spec_index() as u32, vs.spec_index() as u32, e.spec_index() as u32)]),
    {
        self.write_vector(VECTOR_VMACF, vd, vt, vs, e);
    }

    /// Emits VMACQ vd, vs, vt[e].
    pub fn write_vmacq(&mut self, vd: VR, vt: VR, vs: VR, e: Element)
        ensures
            Self::emits(*old(self), *final(self), seq![vector_word(VECTOR_VMACQ, vd.spec_index() as u32, vt.spec_index() as u32, vs.spec_index() as u32, e.spec_index() as u32)]),
    {
        self.write_vector(VECTOR_VMACQ, vd, vt, vs, e);
    }

    /// Emits VMACU vd, vs, vt[e].
    pub fn write_vmacu(&mut self, vd: VR, vt: VR, vs: VR, e: Element)
        ensures
            Self::emits(*old(self), *final(self), seq![vector_word(VECTOR_VMACU, vd.spec_index() as u32, vt.spec_index() as u32, vs.spec_index() as u32, e.spec_index() as u32)]),
    {
        self.write_vector(VECTOR_VMACU, vd, vt, vs, e);
    }

    /// Emits VMADH vd, vs, vt[e].
    pub fn write_vmadh(&mut self, vd: VR, vt: VR, vs: VR, e: Element)
        ensures
            Self::emits(*old(self), *final(self), seq![vector_word(VECTOR_VMADH, vd.spec_index() as u32, vt.spec_index() as u32, vs.spec_index() as u32, e.spec_index() as u32)]),
    {
        self.write_vector(VECTOR_VMADH, vd, vt, vs, e);
    }

    /// Emits VMADL vd, vs, vt[e].
    pub fn write_vmadl(&mut self, vd: VR, vt: VR, vs: VR, e: Element)
        ensures
            Self::emits(*old(self), *final(self), seq![vector_word(VECTOR_VMADL, vd.spec_index() as u32, vt.spec_index() as u32, vs.spec_index() as u32, e.spec_index() as u32)]),
    {
        self.write_vector(VECTOR_VMADL, vd, vt, vs, e);
    }

    /// Emits VMADM vd, vs, vt[e].
    pub fn write_vmadm(&mut self, vd: VR, vt: VR, vs: VR, e: Element)
        ensures
            Self::emits(*old(self), *final(self), seq![vector_word(VECTOR_VMADM, vd.spec_index() as u32, vt.spec_index() as u32, vs.spec_index() as u32, e.spec_index() as u32)]),
    {
        self.write_vector(VECTOR_VMADM, vd, vt, vs, e);
    }

    /// Emits VMADN vd, vs, vt[e].
    pub fn write_vmadn(&mut self, vd: VR, vt: VR, vs: VR, e: Element)
        ensures
            Self::emits(*old(self), *final(self), seq![vector_word(VECTOR_VMADN, vd.spec_index() as u32, vt.spec_index() as u32, vs.spec_index() as u32, e.spec_index() as u32)]),
    {
        self.write_vector(VECTOR_VMADN, vd, vt, vs, e);
    }

    /// Emits VMRG vd, vs, vt[e].
    pub fn write_vmrg(&mut self, vd: VR, vt: VR, vs: VR, e: Element)
        ensures
            Self::emits(*old(self), *final(self), seq![vector_word(VECTOR_VMRG, vd.spec_index() as u32, vt.spec_index() as u32, vs.spec_index() as u32, e.spec_index() as u32)]),
    {
        self.write_vector(VECTOR_VMRG, vd, vt, vs, e);
    }

    /// Emits VMUDH vd, vs, vt[e].
    pub fn write_vmudh(&mut self, vd: VR, vt: VR, vs: VR, e: Element)
        ensures
            Self::emits(*old(self), *final(self), seq![vector_word(VECTOR_VMUDH, vd.spec_index() as u32, vt.spec_index() as u32, vs.spec_index() as u32, e.spec_index() as u32)]),
    {
        self.write_vector(VECTOR_VMUDH, vd, vt, vs, e);
    }

    /// Emits VMUDL vd, vs, vt[e].
    pub fn write_vmudl(&mut self, vd: VR, vt: VR, vs: VR, e: Element)
        ensures
            Self::emits(*old(self), *final(self), seq![vector_word(VECTOR_VMUDL, vd.spec_index() as u32, vt.spec_index() as u32, vs.spec_index() as u32, e.spec_index() as u32)]),
    {
        self.write_vector(VECTOR_VMUDL, vd, vt, vs, e);
    }

    /// Emits VMUDN vd, vs, vt[e].
    pub fn write_vmudn(&mut self, vd: VR, vt: VR, vs: VR, e: Element)
        ensures
            Self::emits(*old(self), *final(self), seq![vector_word(VECTOR_VMUDN, vd.spec_index() as u32, vt.spec_index() as u32, vs.spec_index() as u32, e.spec_index() as u32)]),
    {
        self.write_vector(VECTOR_VMUDN, vd, vt, vs, e);
    }

    /// Emits VMUDM vd, vs, vt[e].
    pub fn write_vmudm(&mut self, vd: VR, vt: VR, vs: VR, e: Element)
        ensures
            Self::emits(*old(self), *final(self), seq![vector_word(VECTOR_VMUDM, vd.spec_index() as u32, vt.spec_index() as u32, vs.spec_index() as u32, e.spec_index() as u32)]),
    {
        self.write_vector(VECTOR_VMUDM, vd, vt, vs, e);
    }

    /// Emits VMULF vd, vs, vt[e].
    pub fn write_vmulf(&mut self, vd: VR, vt: VR, vs: VR, e: Element)
        ensures
            Self::emits(*old(self), *final(self), seq![vector_word(VECTOR_VMULF, vd.spec_index() as u32, vt.spec_index() as u32, vs.spec_index() as u32, e.spec_index() as u32)]),
    {
        self.write_vector(VECTOR_VMULF, vd, vt, vs, e);
    }

    /// Emits VMULQ vd, vs, vt[e].
    pub fn write_vmulq(&mut self, vd: VR, vt: VR, vs: VR, e: Element)
        ensures
            Self::emits(*old(self), *final(self), seq![vector_word(VECTOR_VMULQ, vd.spec_index() as u32, vt.spec_index() as u32, vs.spec_index() as u32, e.spec_index() as u32)]),
    {
        self.write_vector(VECTOR_VMULQ, vd, vt, vs, e);
    }

    /// Emits VMULU vd, vs, vt[e].
    pub fn write_vmulu(&mut self, vd: VR, vt: VR, vs: VR, e: Element)
        ensures
            Self::emits(*old(self), *final(self), seq![vector_word(VECTOR_VMULU, vd.spec_index() as u32, vt.spec_index() as u32, vs.spec_index() as u32, e.spec_index() as u32)]),
    {
        self.write_vector(VECTOR_VMULU, vd, vt, vs, e);
    }

    /// Emits VNAND vd, vs, vt[e].
    pub fn write_vnand(&mut self, vd: VR, vt: VR, vs: VR, e: Element)
        ensures
            Self::emits(*old(self), *final(self), seq![vector_word(VECTOR_VNAND, vd.spec_index() as u32, vt.spec_index() as u32, vs.spec_index() as u32, e.spec_index() as u32)]),
    {
        self.write_vector(VECTOR_VNAND, vd, vt, vs, e);
    }

    /// Emits VNE vd, vs, vt[e].
    pub fn write_vne(&mut self, vd: VR, vt: VR, vs: VR, e: Element)
        ensures
            Self::emits(*old(self), *final(self), seq![vector_word(VECTOR_VNE, vd.spec_index() as u32, vt.spec_index() as u32, vs.spec_index() as u32, e.spec_index() as u32)]),
    {
        self.write_vector(VECTOR_VNE, vd, vt, vs, e);
    }

    /// Emits VNOP vd, vs, vt[e].
    pub fn write_vnop(&mut self, vd: VR, vt: VR, vs: VR, e: Element)
        ensures
            Self::emits(*old(self), *final(self), seq![vector_word(VECTOR_VNOP, vd.spec_index() as u32, vt.spec_index() as u32, vs.spec_index() as u32, e.spec_index() as u32)]),
    {
        self.write_vector(VECTOR_VNOP, vd, vt, vs, e);
    }

    /// Emits VNOR vd, vs, vt[e].
    pub fn write_vnor(&mut self, vd: VR, vt: VR, vs: VR, e: Element)
        ensures
            Self::emits(*old(self), *final(self), seq![vector_word(VECTOR_VNOR, vd.spec_index() as u32, vt.spec_index() as u32, vs.spec_index() as u32, e.spec_index() as u32)]),
    {
        self.write_vector(VECTOR_VNOR, vd, vt, vs, e);
    }

    /// Emits VNULL vd, vs, vt[e].
    pub fn write_vnull(&mut self, vd: VR, vt: VR, vs: VR, e: Element)
        ensures
            Self::emits(*old(self), *final(self), seq![vector_word(VECTOR_VNULL, vd.spec_index() as u32, vt.spec_index() as u32, vs.spec_index() as u32, e.spec_index() as u32)]),
    {
        self.write_vector(VECTOR_VNULL, vd, vt, vs, e);
    }

    /// Emits VNXOR vd, vs, vt[e].
    pub fn write_vnxor(&mut self, vd: VR, vt: VR, vs: VR, e: Element)
        ensures
            Self::emits(*old(self), *final(self), seq![vector_word(VECTOR_VNXOR, vd.spec_index() as u32, vt.spec_index() as u32, vs.spec_index() as u32, e.spec_index() as u32)]),
    {
        self.write_vector(VECTOR_VNXOR, vd, vt, vs, e);
    }

    /// Emits VOR vd, vs, vt[e].
    pub fn write_vor(&mut self, vd: VR, vt: VR, vs: VR, e: Element)
        ensures
            Self::emits(*old(self), *final(self), seq![vector_word(VECTOR_VOR, vd.spec_index() as u32, vt.spec_index() as u32, vs.spec_index() as u32, e.spec_index() as u32)]),
    {
        self.write_vector(VECTOR_VOR, vd, vt, vs, e);
    }

    /// Emits VRNDN vd, vs, vt[e].
    pub fn write_vrndn(&mut self, vd: VR, vt: VR, vs: VR, e: Element)
        ensures
            Self::emits(*old(self), *final(self), seq![vector_word(VECTOR_VRNDN, vd.spec_index() as u32, vt.spec_index() as u32, vs.spec_index() as u32, e.spec_index() as u32)]),
    {
        self.write_vector(VECTOR_VRNDN, vd, vt, vs, e);
    }

    /// Emits VRNDP vd, vs, vt[e].
    pub fn write_vrndp(&mut self, vd: VR, vt: VR, vs: VR, e: Element)
        ensures
            Self::emits(*old(self), *final(self), seq![vector_word(VECTOR_VRNDP, vd.spec_index() as u32, vt.spec_index() as u32, vs.spec_index() as u32, e.spec_index() as u32)]),
    {
        self.write_vector(VECTOR_VRNDP, vd, vt, vs, e);
    }

    /// Emits VSAC vd, vs, vt[e].
    pub fn write_vsac(&mut self, vd: VR, vt: VR, vs: VR, e: Element)
        ensures
            Self::emits(*old(self), *final(self), seq![vector_word(VECTOR_VSAC, vd.spec_index() as u32, vt.spec_index() as u32, vs.spec_index() as u32, e.spec_index() as u32)]),
    {
        self.write_vector(VECTOR_VSAC, vd, vt, vs, e);
    }

    /// Emits VSAD vd, vs, vt[e].
    pub fn write_vsad(&mut self, vd: VR, vt: VR, vs: VR, e: Element)
        ensures
            Self::emits(*old(self), *final(self), seq![vector_word(VECTOR_VSAD, vd.spec_index() as u32, vt.spec_index() as u32, vs.spec_index() as u32, e.spec_index() as u32)]),
    {
        self.write_vector(VECTOR_VSAD, vd, vt, vs, e);
    }

    /// Emits VSAR with any element number.
    pub fn write_vsar_any_index(&mut self, vd: VR, vt: VR, vs: VR, e: E)
        ensures
            Self::emits(*old(self), *final(self), seq![vector_word(VECTOR_VSAR, vd.spec_index() as u32, vt.spec_index() as u32, vs.spec_index() as u32, e.spec_index() as u32)]),
    {
        self.write_vector_e(VECTOR_VSAR, vd, vt, vs, e);
    }

    /// Emits VSAR vd, reading the given part of the accumulator.
    pub fn write_vsar(&mut self, vd: VR, source: VSARAccumulator)
        ensures
            Self::emits(*old(self), *final(self), seq![vector_word(VECTOR_VSAR, vd.spec_index() as u32, 0, 0, source.spec_value() as u32)]),
    {
        let e = E::from_index(source.value());
        proof {
            assert(E::spec_from_index(source.spec_value()) is Some);
        }
        self.write_vsar_any_index(vd, VR::V0, VR::V0, e.unwrap());
    }

    /// Emits VSUB vd, vs, vt[e].
    pub fn write_vsub(&mut self, vd: VR, vt: VR, vs: VR, e: Element)
        ensures
            Self::emits(*old(self), *final(self), seq![vector_word(VECTOR_VSUB, vd.spec_index() as u32, vt.spec_index() as u32, vs.spec_index() as u32, e.spec_index() as u32)]),
    {
        self.write_vector(VECTOR_VSUB, vd, vt, vs, e);
    }

    /// Emits VSUBB vd, vs, vt[e].
    pub fn write_vsubb(&mut self, vd: VR, vt: VR, vs: VR, e: Element)
        ensures
            Self::emits(*old(self), *final(self), seq![vector_word(VECTOR_VSUBB, vd.spec_index() as u32, vt.spec_index() as u32, vs.spec_index() as u32, e.spec_index() as u32)]),
    {
        self.write_vector(VECTOR_VSUBB, vd, vt, vs, e);
    }

    /// Emits VSUBC vd, vs, vt[e].
    pub fn write_vsubc(&mut self, vd: VR, vt: VR, vs: VR, e: Element)
        ensures
            Self::emits(*old(self), *final(self), seq![vector_word(VECTOR_VSUBC, vd.spec_index() as u32, vt.spec_index() as u32, vs.spec_index() as u32, e.spec_index() as u32)]),
    {
        self.write_vector(VECTOR_VSUBC, vd, vt, vs, e);
    }

    /// Emits VSUCB vd, vs, vt[e].
    pub fn write_vsucb(&mut self, vd: VR, vt: VR, vs: VR, e: Element)
        ensures
            Self::emits(*old(self), *final(self), seq![vector_word(VECTOR_VSUCB, vd.spec_index() as u32, vt.spec_index() as u32, vs.spec_index() as u32, e.spec_index() as u32)]),
    {
        self.write_vector(VECTOR_VSUCB, vd, vt, vs, e);
    }

    /// Emits VSUM vd, vs, vt[e].
    pub fn write_vsum(&mut self, vd: VR, vt: VR, vs: VR, e: Element)
        ensures
            Self::emits(*old(self), *final(self), seq![vector_word(VECTOR_VSUM, vd.spec_index() as u32, vt.spec_index() as u32, vs.spec_index() as u32, e.spec_index() as u32)]),
    {
        self.write_vector(VECTOR_VSUM, vd, vt, vs, e);
    }

    /// Emits VSUT vd, vs, vt[e].
    pub fn write_vsut(&mut self, vd: VR, vt: VR, vs: VR, e: Element)
        ensures
            Self::emits(*old(self), *final(self), seq![vector_word(VECTOR_VSUT, vd.spec_index() as u32, vt.spec_index() as u32, vs.spec_index() as u32, e.spec_index() as u32)]),
    {
        self.write_vector(VECTOR_VSUT, vd, vt, vs, e);
    }

    /// Emits VXOR vd, vs, vt[e].
    pub fn write_vxor(&mut self, vd: VR, vt: VR, vs: VR, e: Element)
        ensures
            Self::emits(*old(self), *final(self), seq![vector_word(VECTOR_VXOR, vd.spec_index() as u32, vt.spec_index() as u32, vs.spec_index() as u32, e.spec_index() as u32)]),
    {
        self.write_vector(VECTOR_VXOR, vd, vt, vs, e);
    }

    /// Emits V30 vd, vs, vt[e].
    pub fn write_v30(&mut self, vd: VR, vt: VR, vs: VR, e: Element)
        ensures
            Self::emits(*old(self), *final(self), seq![vector_word(VECTOR_V30, vd.spec_index() as u32, vt.spec_index() as u32, vs.spec_index() as u32, e.spec_index() as u32)]),
    {
        self.write_vector(VECTOR_V30, vd, vt, vs, e);
    }

    /// Emits V31 vd, vs, vt[e].
    pub fn write_v31(&mut self, vd: VR, vt: VR, vs: VR, e: Element)
        ensures
            Self::emits(*old(self), *final(self), seq![vector_word(VECTOR_V31, vd.spec_index() as u32, vt.spec_index() as u32, vs.spec_index() as u32, e.spec_index() as u32)]),
    {
        self.write_vector(VECTOR_V31, vd, vt, vs, e);
    }

    /// Emits V46 vd, vs, vt[e].
    pub fn write_v46(&mut self, vd: VR, vt: VR, vs: VR, e: Element)
        ensures
            Self::emits(*old(self), *final(self), seq![vector_word(VECTOR_V46, vd.spec_index() as u32, vt.spec_index() as u32, vs.spec_index() as u32, e.spec_index() as u32)]),
    {
        self.write_vector(VECTOR_V46, vd, vt, vs, e);
    }

    /// Emits V47 vd, vs, vt[e].
    pub fn write_v47(&mut self, vd: VR, vt: VR, vs: VR, e: Element)
        ensures
            Self::emits(*old(self), *final(self), seq![vector_word(VECTOR_V47, vd.spec_index() as u32, vt.spec_index() as u32, vs.spec_index() as u32, e.spec_index() as u32)]),
    {
        self.write_vector(VECTOR_V47, vd, vt, vs, e);
    }

    /// Emits V59 vd, vs, vt[e].
    pub fn write_v59(&mut self, vd: VR, vt: VR, vs: VR, e: Element)
        ensures
            Self::emits(*old(self), *final(self), seq![vector_word(VECTOR_V59, vd.spec_index() as u32, vt.spec_index() as u32, vs.spec_index() as u32, e.spec_index() as u32)]),
    {
        self.write_vector(VECTOR_V59, vd, vt, vs, e);
    }

}

/// Emitting `words1` and then `words2` is emitting `words1 + words2`.
pub proof fn lemma_emits_concat(a: RSPAssembler, b: RSPAssembler, c: RSPAssembler, words1: Seq<u32>, words2: Seq<u32>)
    requires
        RSPAssembler::emits(a, b, words1),
        RSPAssembler::emits(b, c, words2),
    ensures
        RSPAssembler::emits(a, c, words1 + words2),
{
    crate::rsp::dmem_writer::lemma_emits_concat(a.spec_writer(), b.spec_writer(), c.spec_writer(), words1, words2);
}

/// Each scalar register has its MIPS register number, its place in the register file: R0 0, AT 1, ..., S0 16, S1 17, ..., RA 31.
pub proof fn lemma_gpr_numbers()
    ensures
        GPR::R0.spec_index() == 0,
        GPR::AT.spec_index() == 1,
        GPR::V0.spec_index() == 2,
        GPR::V1.spec_index() == 3,
        GPR::A0.spec_index() == 4,
        GPR::A1.spec_index() == 5,
        GPR::R2.spec_index() == 6,
        GPR::R3.spec_index() == 7,
        GPR::T0.spec_index() == 8,
        GPR::T1.spec_index() == 9,
        GPR::T2.spec_index() == 10,
        GPR::T3.spec_index() == 11,
        GPR::T4.spec_index() == 12,
        GPR::T5.spec_index() == 13,
        GPR::T6.spec_index() == 14,
        GPR::T7.spec_index() == 15,
        GPR::S0.spec_index() == 16,
        GPR::S1.spec_index() == 17,
        GPR::S2.spec_index() == 18,
        GPR::S3.spec_index() == 19,
        GPR::S4.spec_index() == 20,
        GPR::S5.spec_index() == 21,
        GPR::S6.spec_index() == 22,
        GPR::S7.spec_index() == 23,
        GPR::T8.spec_index() == 24,
        GPR::T9.spec_index() == 25,
        GPR::K0.spec_index() == 26,
        GPR::K1.spec_index() == 27,
        GPR::GP.spec_index() == 28,
        GPR::SP.spec_index() == 29,
        GPR::S8.spec_index() == 30,
        GPR::RA.spec_index() == 31,
{
}

/// Each vector register has its own number: V0 is 0, ..., V31 is 31.
pub proof fn lemma_vr_numbers()
    ensures
        VR::V0.spec_index() == 0,
        VR::V1.spec_index() == 1,
        VR::V2.spec_index() == 2,
        VR::V3.spec_index() == 3,
        VR::V4.spec_index() == 4,
        VR::V5.spec_index() == 5,
        VR::V6.spec_index() == 6,
        VR::V7.spec_index() == 7,
        VR::V8.spec_index() == 8,
        VR::V9.spec_index() == 9,
        VR::V10.spec_index() == 10,
        VR::V11.spec_index() == 11,
        VR::V12.spec_index() == 12,
        VR::V13.spec_index() == 13,
        VR::V14.spec_index() == 14,
        VR::V15.spec_index() == 15,
        VR::V16.spec_index() == 16,
        VR::V17.spec_index() == 17,
        VR::V18.spec_index() == 18,
        VR::V19.spec_index() == 19,
        VR::V20.spec_index() == 20,
        VR::V21.spec_index() == 21,
        VR::V22.spec_index() == 22,
        VR::V23.spec_index() == 23,
        VR::V24.spec_index() == 24,
        VR::V25.spec_index() == 25,
        VR::V26.spec_index() == 26,
        VR::V27.spec_index() == 27,
        VR::V28.spec_index() == 28,
        VR::V29.spec_index() == 29,
        VR::V30.spec_index() == 30,
        VR::V31.spec_index() == 31,
{
}

/// The element specifiers have their four bit encodings: whole vector 0 and 1, quarters 2 and 3, halves 4 to 7, single lanes 8 to 15.
pub proof fn lemma_element_numbers()
    ensures
        Element::All.spec_index() == 0,
        Element::All1.spec_index() == 1,
        Element::Q0.spec_index() == 2,
        Element::Q1.spec_index() == 3,
        Element::H0.spec_index() == 4,
        Element::H1.spec_index() == 5,
        Element::H2.spec_index() == 6,
        Element::H3.spec_index() == 7,
        Element::_0.spec_index() == 8,
        Element::_1.spec_index() == 9,
        Element::_2.spec_index() == 10,
        Element::_3.spec_index() == 11,
        Element::_4.spec_index() == 12,
        Element::_5.spec_index() == 13,
        Element::_6.spec_index() == 14,
        Element::_7.spec_index() == 15,
{
}

/// An element index stands for its own number: `_0` is 0, ..., `_15` is 15.
pub proof fn lemma_e_numbers()
    ensures
        E::_0.spec_index() == 0,
        E::_1.spec_index() == 1,
        E::_2.spec_index() == 2,
        E::_3.spec_index() == 3,
        E::_4.spec_index() == 4,
        E::_5.spec_index() == 5,
        E::_6.spec_index() == 6,
        E::_7.spec_index() == 7,
        E::_8.spec_index() == 8,
        E::_9.spec_index() == 9,
        E::_10.spec_index() == 10,
        E::_11.spec_index() == 11,
        E::_12.spec_index() == 12,
        E::_13.spec_index() == 13,
        E::_14.spec_index() == 14,
        E::_15.spec_index() == 15,
{
}

/// The RSP's coprocessor 0 registers have their hardware numbers: the SP registers 0 to 7, and the
/// RDP's start, end, status and clock registers 8, 9, 11 and 12.
pub proof fn lemma_rsp_cop0_register_numbers()
    ensures
        CP0Register::SPAddress.spec_value() == 0,
        CP0Register::DRAMAddress.spec_value() == 1,
        CP0Register::ReadLength.spec_value() == 2,
        CP0Register::WriteLength.spec_value() == 3,
        CP0Register::SPStatus.spec_value() == 4,
        CP0Register::DmaFull.spec_value() == 5,
        CP0Register::DmaBusy.spec_value() == 6,
        CP0Register::Semaphore.spec_value() == 7,
        CP0Register::DPStart.spec_value() == 8,
        CP0Register::DPEnd.spec_value() == 9,
        CP0Register::DPStatus.spec_value() == 11,
        CP0Register::DPClock.spec_value() == 12,
{
}

/// The vector unit's flag registers have their numbers: VCO 0, VCC 1, VCE 2.
pub proof fn lemma_cp2_flags_register_numbers()
    ensures
        CP2FlagsRegister::VCO.spec_value() == 0,
        CP2FlagsRegister::VCC.spec_value() == 1,
        CP2FlagsRegister::VCE.spec_value() == 2,
{
}

/// VSAR reads the accumulator slices by these element numbers: high 8, middle 9, low 10.
pub proof fn lemma_vsar_accumulator_numbers()
    ensures
        VSARAccumulator::High.spec_value() == 8,
        VSARAccumulator::Mid.spec_value() == 9,
        VSARAccumulator::Low.spec_value() == 10,
{
}

/// The lanes that each element specifier selects, lane by lane, as the vector unit defines them:
/// the whole vector in order, quarters (pairs of lanes repeating their first or second lane),
/// halves (groups of four repeating one lane) and single lanes broadcast.
pub proof fn lemma_effective_element_table()
    ensures
        Seq::new(8, |i: int| Element::All.spec_effective_element_index(i as usize)) == seq![0usize, 1, 2, 3, 4, 5, 6, 7],
        Seq::new(8, |i: int| Element::All1.spec_effective_element_index(i as usize)) == seq![0usize, 1, 2, 3, 4, 5, 6, 7],
        Seq::new(8, |i: int| Element::Q0.spec_effective_element_index(i as usize)) == seq![0usize, 0, 2, 2, 4, 4, 6, 6],
        Seq::new(8, |i: int| Element::Q1.spec_effective_element_index(i as usize)) == seq![1usize, 1, 3, 3, 5, 5, 7, 7],
        Seq::new(8, |i: int| Element::H0.spec_effective_element_index(i as usize)) == seq![0usize, 0, 0, 0, 4, 4, 4, 4],
        Seq::new(8, |i: int| Element::H1.spec_effective_element_index(i as usize)) == seq![1usize, 1, 1, 1, 5, 5, 5, 5],
        Seq::new(8, |i: int| Element::H2.spec_effective_element_index(i as usize)) == seq![2usize, 2, 2, 2, 6, 6, 6, 6],
        Seq::new(8, |i: int| Element::H3.spec_effective_element_index(i as usize)) == seq![3usize, 3, 3, 3, 7, 7, 7, 7],
        Seq::new(8, |i: int| Element::_0.spec_effective_element_index(i as usize)) == seq![0usize, 0, 0, 0, 0, 0, 0, 0],
        Seq::new(8, |i: int| Element::_1.spec_effective_element_index(i as usize)) == seq![1usize, 1, 1, 1, 1, 1, 1, 1],
        Seq::new(8, |i: int| Element::_2.spec_effective_element_index(i as usize)) == seq![2usize, 2, 2, 2, 2, 2, 2, 2],
        Seq::new(8, |i: int| Element::_3.spec_effective_element_index(i as usize)) == seq![3usize, 3, 3, 3, 3, 3, 3, 3],
        Seq::new(8, |i: int| Element::_4.spec_effective_element_index(i as usize)) == seq![4usize, 4, 4, 4, 4, 4, 4, 4],
        Seq::new(8, |i: int| Element::_5.spec_effective_element_index(i as usize)) == seq![5usize, 5, 5, 5, 5, 5, 5, 5],
        Seq::new(8, |i: int| Element::_6.spec_effective_element_index(i as usize)) == seq![6usize, 6, 6, 6, 6, 6, 6, 6],
        Seq::new(8, |i: int| Element::_7.spec_effective_element_index(i as usize)) == seq![7usize, 7, 7, 7, 7, 7, 7, 7],
{
    assert(Seq::new(8, |i: int| Element::All.spec_effective_element_index(i as usize)) =~= seq![0usize, 1, 2, 3, 4, 5, 6, 7]);
    assert(Seq::new(8, |i: int| Element::All1.spec_effective_element_index(i as usize)) =~= seq![0usize, 1, 2, 3, 4, 5, 6, 7]);
    assert(Seq::new(8, |i: int| Element::Q0.spec_effective_element_index(i as usize)) =~= seq![0usize, 0, 2, 2, 4, 4, 6, 6]);
    assert(Seq::new(8, |i: int| Element::Q1.spec_effective_element_index(i as usize)) =~= seq![1usize, 1, 3, 3, 5, 5, 7, 7]);
    assert(Seq::new(8, |i: int| Element::H0.spec_effective_element_index(i as usize)) =~= seq![0usize, 0, 0, 0, 4, 4, 4, 4]);
    assert(Seq::new(8, |i: int| Element::H1.spec_effective_element_index(i as usize)) =~= seq![1usize, 1, 1, 1, 5, 5, 5, 5]);
    assert(Seq::new(8, |i: int| Element::H2.spec_effective_element_index(i as usize)) =~= seq![2usize, 2, 2, 2, 6, 6, 6, 6]);
    assert(Seq::new(8, |i: int| Element::H3.spec_effective_element_index(i as usize)) =~= seq![3usize, 3, 3, 3, 7, 7, 7, 7]);
    assert(Seq::new(8, |i: int| Element::_0.spec_effective_element_index(i as usize)) =~= seq![0usize, 0, 0, 0, 0, 0, 0, 0]);
    assert(Seq::new(8, |i: int| Element::_1.spec_effective_element_index(i as usize)) =~= seq![1usize, 1, 1, 1, 1, 1, 1, 1]);
    assert(Seq::new(8, |i: int| Element::_2.spec_effective_element_index(i as usize)) =~= seq![2usize, 2, 2, 2, 2, 2, 2, 2]);
    assert(Seq::new(8, |i: int| Element::_3.spec_effective_element_index(i as usize)) =~= seq![3usize, 3, 3, 3, 3, 3, 3, 3]);
    assert(Seq::new(8, |i: int| Element::_4.spec_effective_element_index(i as usize)) =~= seq![4usize, 4, 4, 4, 4, 4, 4, 4]);
    assert(Seq::new(8, |i: int| Element::_5.spec_effective_element_index(i as usize)) =~= seq![5usize, 5, 5, 5, 5, 5, 5, 5]);
    assert(Seq::new(8, |i: int| Element::_6.spec_effective_element_index(i as usize)) =~= seq![6usize, 6, 6, 6, 6, 6, 6, 6]);
    assert(Seq::new(8, |i: int| Element::_7.spec_effective_element_index(i as usize)) =~= seq![7usize, 7, 7, 7, 7, 7, 7, 7]);
}

} // verus!
