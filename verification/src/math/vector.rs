//! A 128 bit RSP vector, seen as eight 16 bit lanes. It can also be read and written as 16 bytes
//! or four 32 bit words, with a big-endian mapping: lane `i` holds bytes `2i` (high) and `2i + 1`
//! (low), and word `i` holds lanes `2i` (high) and `2i + 1` (low).

use vstd::prelude::*;

use crate::bits::{lemma_u16_bytes, lemma_u32_halves, u16_of_bytes, u32_of_halves};
use crate::rsp::rsp_assembler::Element;

verus! {

/// The 32 bit word made of a high and a low lane.
pub open spec fn word_of_lanes(high: u16, low: u16) -> u32 {
    u32_of_halves(high, low)
}

/// The lane made of a high and a low byte.
pub open spec fn lane_of_bytes(high: u8, low: u8) -> u16 {
    u16_of_bytes(high, low)
}

/// The lanes that hold four 32 bit words, high half first.
pub open spec fn lanes_of_words(d0: u32, d1: u32, d2: u32, d3: u32) -> Seq<u16> {
    seq![(d0 >> 16u32) as u16, d0 as u16, (d1 >> 16u32) as u16, d1 as u16,
        (d2 >> 16u32) as u16, d2 as u16, (d3 >> 16u32) as u16, d3 as u16]
}

#[derive(Clone, Copy, Debug)]
pub struct Vector {
    lanes: [u16; 8],
}

impl View for Vector {
    type V = Seq<u16>;

    closed spec fn view(&self) -> Seq<u16> {
        self.lanes@
    }
}

impl Vector {
    /// Word `index` (0 to 3) of the vector.
    pub open spec fn spec_get32(&self, index: int) -> u32 {
        word_of_lanes(self@[2 * index], self@[2 * index + 1])
    }

    /// Byte `index` (0 to 15) of the vector.
    pub open spec fn spec_get8(&self, index: int) -> u8 {
        if index % 2 == 0 {
            (self@[index / 2] >> 8u16) as u8
        } else {
            self@[index / 2] as u8
        }
    }

    /// The vector's lanes are eight.
    pub proof fn lemma_len(&self)
        ensures
            self@.len() == 8,
    {
    }

    /// The vector with all bits 0.
    pub fn new() -> (r: Self)
        ensures
            r@ == Seq::new(8, |i: int| 0u16),
    {
        let r = Self { lanes: [0u16; 8] };
        assert(r@ =~= Seq::new(8, |i: int| 0u16));
        r
    }

    /// The vector with `value` in every lane.
    pub fn new_with_broadcast_16(value: u16) -> (r: Self)
        ensures
            r@ == Seq::new(8, |i: int| value),
    {
        let r = Self { lanes: [value; 8] };
        assert(r@ =~= Seq::new(8, |i: int| value));
        r
    }

    /// The vector made of four 32 bit words.
    pub fn new_with_u32_elements(data0: u32, data1: u32, data2: u32, data3: u32) -> (r: Self)
        ensures
            r@ == lanes_of_words(data0, data1, data2, data3),
    {
        let r = Self {
            lanes: [(data0 >> 16) as u16, data0 as u16, (data1 >> 16) as u16, data1 as u16,
                (data2 >> 16) as u16, data2 as u16, (data3 >> 16) as u16, data3 as u16],
        };
        assert(r@ =~= lanes_of_words(data0, data1, data2, data3));
        r
    }

    /// The vector made of eight lanes.
    pub fn from_u16(data: [u16; 8]) -> (r: Self)
        ensures
            r@ == data@,
    {
        Self { lanes: data }
    }

    /// The vector made of sixteen bytes.
    pub fn from_u8(data: [u8; 16]) -> (r: Self)
        ensures
            r@ == Seq::new(8, |i: int| lane_of_bytes(data@[2 * i], data@[2 * i + 1])),
    {
        let mut lanes = [0u16; 8];
        let mut i: usize = 0;
        while i < 8
            invariant
                0 <= i <= 8,
                lanes@.len() == 8,
                forall|j: int| 0 <= j < i ==> lanes@[j] == lane_of_bytes(data@[2 * j], data@[2 * j + 1]),
            decreases 8 - i,
        {
            lanes[i] = ((data[2 * i] as u16) << 8u16) | (data[2 * i + 1] as u16);
            i = i + 1;
        }
        let r = Self { lanes };
        assert(r@ =~= Seq::new(8, |i: int| lane_of_bytes(data@[2 * i], data@[2 * i + 1])));
        r
    }

    /// The vector with lane `index` in every lane.
    pub fn copy_with_broadcast_16(&self, index: usize) -> (r: Vector)
        requires
            index < 8,
        ensures
            r@ == Seq::new(8, |i: int| self@[index as int]),
    {
        let v16 = self.get16(index);
        let v32 = ((v16 as u32) << 16u32) | (v16 as u32);
        let r = Self::new_with_u32_elements(v32, v32, v32, v32);
        proof {
            lemma_u32_halves(v16, v16, 0);
        }
        assert(r@ =~= Seq::new(8, |i: int| self@[index as int]));
        r
    }

    /// The vector that a vector instruction reads as its second source when it names this one
    /// with the element specifier `e`: lane `i` is lane `e.get_effective_element_index(i)`.
    pub fn copy_with_element_specifier_applied(&self, e: Element) -> (r: Vector)
        ensures
            r@ == Seq::new(8, |i: int| self@[e.spec_effective_element_index(i as usize) as int]),
    {
        if e == Element::All || e == Element::All1 {
            let r = *self;
            assert(r@ =~= Seq::new(8, |i: int| self@[e.spec_effective_element_index(i as usize) as int]));
            r
        } else {
            let mut v = [0u16; 8];
            let mut i: usize = 0;
            while i < 8
                invariant
                    0 <= i <= 8,
                    v@.len() == 8,
                    self@.len() == 8,
                    forall|j: int| 0 <= j < i ==> v@[j] == self@[e.spec_effective_element_index(j as usize) as int],
                decreases 8 - i,
            {
                v[i] = self.get16(e.get_effective_element_index(i));
                i = i + 1;
            }
            let r = Vector::from_u16(v);
            assert(r@ =~= Seq::new(8, |i: int| self@[e.spec_effective_element_index(i as usize) as int]));
            r
        }
    }

    /// Word `index` (0 to 3).
    pub fn get32(&self, index: usize) -> (r: u32)
        requires
            index < 4,
        ensures
            r == self.spec_get32(index as int),
    {
        ((self.lanes[2 * index] as u32) << 16u32) | (self.lanes[2 * index + 1] as u32)
    }

    /// Lane `index` (0 to 7).
    pub fn get16(&self, index: usize) -> (r: u16)
        requires
            index < 8,
        ensures
            r == self@[index as int],
    {
        self.lanes[index]
    }

    /// Replaces lane `index` (0 to 7).
    pub fn set16(&mut self, index: usize, value: u16)
        requires
            index < 8,
        ensures
            final(self)@ == old(self)@.update(index as int, value),
    {
        self.lanes[index] = value;
    }

    /// Byte `index` (0 to 15).
    pub fn get8(&self, index: usize) -> (r: u8)
        requires
            index < 16,
        ensures
            r == self.spec_get8(index as int),
    {
        if index % 2 == 0 {
            (self.lanes[index / 2] >> 8u16) as u8
        } else {
            self.lanes[index / 2] as u8
        }
    }

    /// Replaces byte `index` (0 to 15), leaving the other byte of its lane as it was.
    pub fn set8(&mut self, index: usize, value: u8)
        requires
            index < 16,
        ensures
            final(self)@ == old(self)@.update((index / 2) as int, if index % 2 == 0 {
                lane_of_bytes(value, old(self)@[(index / 2) as int] as u8)
            } else {
                lane_of_bytes((old(self)@[(index / 2) as int] >> 8u16) as u8, value)
            }),
    {
        let lane = self.lanes[index / 2];
        let new_lane = if index % 2 == 0 {
            ((value as u16) << 8u16) | ((lane as u8) as u16)
        } else {
            ((((lane >> 8u16) as u8) as u16) << 8u16) | (value as u16)
        };
        self.lanes[index / 2] = new_lane;
    }

    /// Whether the two vectors hold the same bits.
    pub fn equals(&self, other: &Vector) -> (r: bool)
        ensures
            r == (self@ == other@),
    {
        let mut i: usize = 0;
        while i < 8
            invariant
                0 <= i <= 8,
                self@.len() == 8,
                other@.len() == 8,
                forall|j: int| 0 <= j < i ==> self@[j] == other@[j],
            decreases 8 - i,
        {
            if self.lanes[i] != other.lanes[i] {
                return false;
            }
            i = i + 1;
        }
        assert(self@ =~= other@);
        true
    }
}

impl PartialEq for Vector {
    fn eq(&self, other: &Self) -> (r: bool) {
        self.equals(other)
    }
}

impl vstd::std_specs::cmp::PartialEqSpecImpl for Vector {
    open spec fn obeys_eq_spec() -> bool {
        true
    }

    open spec fn eq_spec(&self, other: &Self) -> bool {
        self@ == other@
    }
}

impl Eq for Vector {
}

impl Default for Vector {
    fn default() -> (r: Self)
        ensures
            r@ == Seq::new(8, |i: int| 0u16),
    {
        Self::new()
    }
}

/// The words of a vector built from four words are those words.
pub proof fn lemma_u32_elements_read_back(d0: u32, d1: u32, d2: u32, d3: u32, v: Vector)
    requires
        v@ == lanes_of_words(d0, d1, d2, d3),
    ensures
        v.spec_get32(0) == d0,
        v.spec_get32(1) == d1,
        v.spec_get32(2) == d2,
        v.spec_get32(3) == d3,
{
    lemma_u32_halves(0, 0, d0);
    lemma_u32_halves(0, 0, d1);
    lemma_u32_halves(0, 0, d2);
    lemma_u32_halves(0, 0, d3);
    assert(word_of_lanes((d0 >> 16u32) as u16, d0 as u16) == d0);
    assert(word_of_lanes((d1 >> 16u32) as u16, d1 as u16) == d1);
    assert(word_of_lanes((d2 >> 16u32) as u16, d2 as u16) == d2);
    assert(word_of_lanes((d3 >> 16u32) as u16, d3 as u16) == d3);
}

/// The bytes of a vector built from sixteen bytes are those bytes.
pub proof fn lemma_u8_read_back(data: [u8; 16], v: Vector)
    requires
        v@ == Seq::new(8, |i: int| lane_of_bytes(data@[2 * i], data@[2 * i + 1])),
    ensures
        forall|i: int| 0 <= i < 16 ==> v.spec_get8(i) == data@[i],
{
    assert forall|i: int| 0 <= i < 16 implies v.spec_get8(i) == data@[i] by {
        let h = data@[2 * (i / 2)];
        let l = data@[2 * (i / 2) + 1];
        lemma_u16_bytes(h, l, 0);
    }
}

/// Writing a byte and reading it back gives the byte, and leaves the other bytes as they were.
pub proof fn lemma_set8_get8(before: Vector, after: Vector, index: int, value: u8)
    requires
        0 <= index < 16,
        before@.len() == 8,
        after@ == before@.update(index / 2, if index % 2 == 0 {
            lane_of_bytes(value, before@[index / 2] as u8)
        } else {
            lane_of_bytes((before@[index / 2] >> 8u16) as u8, value)
        }),
    ensures
        after.spec_get8(index) == value,
        forall|j: int| 0 <= j < 16 && j != index ==> after.spec_get8(j) == before.spec_get8(j),
{
    let lane = before@[index / 2];
    lemma_u16_bytes(value, lane as u8, 0);
    lemma_u16_bytes((lane >> 8u16) as u8, value, 0);
}

} // verus!
