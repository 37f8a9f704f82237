//! A writer that emits 32 bit words into consecutive word offsets of the RSP's memory (DMEM
//! followed by IMEM, 8 KiB in all), wrapping around at the end. Each write is recorded as an
//! `(offset, word)` pair, in order, so that it can be carried out on the hardware.

use vstd::prelude::*;

verus! {

use vstd::arithmetic::div_mod::lemma_add_mod_noop_right;

/// `words`, placed at consecutive word offsets from `start`, wrapping around inside the 8 KiB of
/// SPMEM.
pub open spec fn placed(start: int, words: Seq<u32>) -> Seq<(usize, u32)> {
    Seq::new(words.len(), |k: int| (((start + 4 * k) % 0x2000) as usize, words[k]))
}

/// The bit facts behind the writer's offsets.
proof fn lemma_offset_bits(start: usize, offset: usize, o: usize, next: usize)
    by (bit_vector)
    ensures
        offset == start & 0x1FFCusize ==> offset < 0x2000usize && offset % 4usize == 0usize,
        o < 0x2000usize && o % 4usize == 0usize && next == ((o + 4) as usize) & 0x1FFCusize ==>
            next == ((o + 4) as usize) % 0x2000usize && next % 4usize == 0usize,
{
}

pub struct SPMEMWriter {
    offset: usize,
    writes: Vec<(usize, u32)>,
}

impl SPMEMWriter {
    #[verifier::type_invariant]
    spec fn inv(self) -> bool {
        self.offset < 0x2000 && self.offset % 4 == 0
    }

    /// The offset that the next word goes to.
    pub closed spec fn spec_offset(self) -> int {
        self.offset as int
    }

    /// The words written so far, each with the offset it went to, in order.
    pub closed spec fn log(self) -> Seq<(usize, u32)> {
        self.writes@
    }

    /// `after` is `before` with `words` written in order.
    #[verifier::opaque]
    pub open spec fn emits(before: Self, after: Self, words: Seq<u32>) -> bool {
        &&& after.log() == before.log() + placed(before.spec_offset(), words)
        &&& after.spec_offset() == (before.spec_offset() + 4 * words.len()) % 0x2000
    }

    /// A writer whose first word goes to `start_offset`, rounded down to a word and wrapped
    /// into SPMEM.
    pub fn new(start_offset: usize) -> (r: Self)
        ensures
            r.spec_offset() == start_offset & 0x1FFC,
            r.log() == Seq::<(usize, u32)>::empty(),
    {
        let offset = start_offset & 0x1FFC;
        proof {
            lemma_offset_bits(start_offset, offset, 0, 0);
        }
        Self { offset, writes: Vec::new() }
    }

    /// Writes `value` at the current offset and moves on to the next word.
    pub fn write(&mut self, value: u32)
        ensures
            Self::emits(*old(self), *final(self), seq![value]),
    {
        proof {
            use_type_invariant(&*self);
        }
        let o = self.offset;
        let mut writes = Vec::new();
        std::mem::swap(&mut writes, &mut self.writes);
        writes.push((o, value));
        self.writes = writes;
        let next = (o + 4) & 0x1FFC;
        proof {
            lemma_offset_bits(0, 0, o, next);
        }
        self.offset = next;
        proof {
            assert(self.writes@ =~= old(self).writes@ + placed(o as int, seq![value]));
            reveal(SPMEMWriter::emits);
        }
    }

    /// The offset that the next word goes to.
    pub fn offset(&self) -> (r: usize)
        ensures
            r == self.spec_offset(),
            r < 0x2000,
            r % 4 == 0,
    {
        proof {
            use_type_invariant(self);
        }
        self.offset
    }

    /// The words written so far, each with the offset it went to, in order.
    pub fn writes(&self) -> (r: &Vec<(usize, u32)>)
        ensures
            r@ == self.log(),
    {
        &self.writes
    }
}

/// Writing `words1` and then `words2` is writing `words1 + words2`.
pub proof fn lemma_emits_concat(a: SPMEMWriter, b: SPMEMWriter, c: SPMEMWriter, words1: Seq<u32>, words2: Seq<u32>)
    requires
        SPMEMWriter::emits(a, b, words1),
        SPMEMWriter::emits(b, c, words2),
    ensures
        SPMEMWriter::emits(a, c, words1 + words2),
{
    reveal(SPMEMWriter::emits);
    let n1 = words1.len() as int;
    let x = a.spec_offset() + 4 * n1;
    assert forall|j: int| #![trigger placed(b.spec_offset(), words2)[j]] 0 <= j < words2.len() implies
        placed(b.spec_offset(), words2)[j] == placed(a.spec_offset(), words1 + words2)[n1 + j] by {
        lemma_add_mod_noop_right(4 * j, x, 0x2000);
        assert(x + 4 * j == a.spec_offset() + 4 * (n1 + j));
    }
    assert(placed(a.spec_offset(), words1) + placed(b.spec_offset(), words2) =~= placed(a.spec_offset(), words1 + words2));
    assert(c.log() =~= a.log() + placed(a.spec_offset(), words1 + words2));
    lemma_add_mod_noop_right(4 * (words2.len() as int), x, 0x2000);
    assert(x + 4 * (words2.len() as int) == a.spec_offset() + 4 * ((words1 + words2).len() as int));
}

} // verus!
