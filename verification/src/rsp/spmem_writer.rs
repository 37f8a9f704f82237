//! A writer that emits 32 bit words at consecutive byte offsets of SPMEM, without wrapping. Each
//! write is recorded as an `(offset, word)` pair, in order.

use vstd::prelude::*;

verus! {

pub struct SPMEMWriter {
    offset: usize,
    writes: Vec<(usize, u32)>,
}

impl SPMEMWriter {
    /// The offset that the next word goes to.
    pub closed spec fn spec_offset(self) -> usize {
        self.offset
    }

    /// The words written so far, each with the offset it went to, in order.
    pub closed spec fn log(self) -> Seq<(usize, u32)> {
        self.writes@
    }

    /// A writer whose first word goes to `start_offset`.
    pub fn new(start_offset: usize) -> (r: Self)
        ensures
            r.spec_offset() == start_offset,
            r.log() == Seq::<(usize, u32)>::empty(),
    {
        Self { offset: start_offset, writes: Vec::new() }
    }

    /// Writes `value` at the current offset and moves on by the size of a word.
    pub fn write(&mut self, value: u32)
        requires
            old(self).spec_offset() + 4 <= usize::MAX,
        ensures
            final(self).log() == old(self).log().push((old(self).spec_offset(), value)),
            final(self).spec_offset() == old(self).spec_offset() + 4,
    {
        self.writes.push((self.offset, value));
        self.offset = self.offset + 4;
    }

    /// The words written so far, each with the offset it went to, in order.
    pub fn writes(&self) -> (r: &Vec<(usize, u32)>)
        ensures
            r@ == self.log(),
    {
        &self.writes
    }
}

} // verus!
