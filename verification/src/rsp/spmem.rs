//! The RSP's memory as the CPU sees it: 8 KiB of 32 bit words, DMEM (data) in the first 4 KiB
//! and IMEM (instructions) in the second. The vector helpers pack 128 bit vectors into four
//! consecutive DMEM words, big-endian, wrapping around at the end of DMEM.

use vstd::prelude::*;

use crate::bits::{lemma_u32_bytes, lemma_u32_halves, u32_of_bytes};
use crate::math::vector::{lanes_of_words, word_of_lanes, Vector};

verus! {

use vstd::arithmetic::div_mod::lemma_add_mod_noop;

/// The DMEM byte address of the `i`th word from `addr`, wrapping at the end of DMEM.
pub open spec fn dmem_address(addr: int, i: int) -> int {
    (addr + 4 * i) % 0x1000
}

/// `mem` after `words` were written, in order, to consecutive DMEM words from `addr`.
pub open spec fn write_dmem_words(mem: Seq<u32>, addr: int, words: Seq<u32>) -> Seq<u32>
    decreases words.len(),
{
    if words.len() == 0 {
        mem
    } else {
        write_dmem_words(mem, addr, words.drop_last()).update(
            dmem_address(addr, words.len() - 1) / 4,
            words.last(),
        )
    }
}

/// The `n` consecutive DMEM words of `mem` from `addr`, wrapping at the end of DMEM.
pub open spec fn dmem_words(mem: Seq<u32>, addr: int, n: nat) -> Seq<u32> {
    Seq::new(n, |i: int| mem[dmem_address(addr, i) / 4])
}

/// Eight lanes packed into four words, two lanes per word, the first one high.
pub open spec fn words_of_lanes16(lanes: Seq<u16>) -> Seq<u32> {
    Seq::new(4, |i: int| word_of_lanes(lanes[2 * i], lanes[2 * i + 1]))
}

/// Four words split into eight lanes, high half first.
pub open spec fn lanes_of_words16(words: Seq<u32>) -> Seq<u16> {
    Seq::new(8, |j: int| if j % 2 == 0 { (words[j / 2] >> 16u32) as u16 } else { words[j / 2] as u16 })
}

/// The big-endian word made of four bytes.
pub open spec fn word_of_bytes(b0: u8, b1: u8, b2: u8, b3: u8) -> u32 {
    u32_of_bytes(b0, b1, b2, b3)
}

/// Bytes packed into big-endian words, four per word.
pub open spec fn words_of_bytes(bytes: Seq<u8>) -> Seq<u32> {
    Seq::new(bytes.len() / 4, |i: int| word_of_bytes(bytes[4 * i], bytes[4 * i + 1], bytes[4 * i + 2], bytes[4 * i + 3]))
}

/// Words split into bytes, most significant byte first.
pub open spec fn bytes_of_words(words: Seq<u32>) -> Seq<u8> {
    Seq::new(4 * words.len(), |j: int| (words[j / 4] >> (8 * (3 - j % 4)) as u32) as u8)
}

pub struct SPMEM {
    words: [u32; 2048],
}

impl View for SPMEM {
    type V = Seq<u32>;

    closed spec fn view(&self) -> Seq<u32> {
        self.words@
    }
}

/// The bit facts behind DMEM addressing.
proof fn lemma_address_bits(addr: usize, x: usize, y: usize, r: usize, count: usize)
    by (bit_vector)
    ensures
        (addr & 3usize) == 0usize ==> addr % 4usize == 0usize,
        addr % 4usize == 0usize && x == addr & 0xFFCusize ==> x == addr % 0x1000usize,
        y % 4usize == 0usize && y < 0x2000usize && r == y & 0xFFCusize ==> r == y % 0x1000usize && r % 4usize == 0usize,
        count >> 2usize == count / 4usize,
{
}

/// The DMEM byte address `(addr + 4 * i) % 0x1000`, computed without overflow.
fn dmem_word_address(addr: usize, i: usize) -> (r: usize)
    requires
        addr % 4 == 0,
        i < 0x400,
    ensures
        r == dmem_address(addr as int, i as int),
        r % 4 == 0,
        r < 0x1000,
{
    let x = addr & 0xFFC;
    proof {
        lemma_address_bits(addr, x, 0, 0, 0);
    }
    let y = x + 4 * i;
    let r = y & 0xFFC;
    proof {
        lemma_address_bits(addr, x, y, r, 0);
        lemma_add_mod_noop(addr as int, 4 * i as int, 0x1000);
        assert((4 * i as int) % 0x1000 == 4 * i as int);
    }
    r
}

/// DMEM addresses repeat every 1024 words.
proof fn lemma_dmem_address_wraps(addr: int, i: int)
    requires
        i >= 0,
    ensures
        dmem_address(addr, i % 0x400) == dmem_address(addr, i),
{
    let q = i / 0x400;
    let r = i % 0x400;
    assert(i == 0x400 * q + r);
    assert(addr + 4 * i == (addr + 4 * r) + 0x1000 * q) by (nonlinear_arith)
        requires
            i == 0x400 * q + r;
    vstd::arithmetic::div_mod::lemma_mod_multiples_vanish(q, addr + 4 * r, 0x1000);
}

impl SPMEM {
    /// SPMEM with every word 0.
    pub fn new() -> (r: Self)
        ensures
            r@ == Seq::new(2048, |i: int| 0u32),
    {
        let r = Self { words: [0u32; 2048] };
        assert(r@ =~= Seq::new(2048, |i: int| 0u32));
        r
    }

    /// The words of SPMEM, in address order.
    pub fn words(&self) -> (r: &[u32; 2048])
        ensures
            r@ == self@,
    {
        &self.words
    }

    /// The size is fixed.
    pub proof fn lemma_len(&self)
        ensures
            self@.len() == 2048,
    {
    }

    /// Writes the word at byte address `addr`.
    pub fn write(&mut self, addr: usize, value: u32)
        requires
            addr < 0x2000,
            addr % 4 == 0,
        ensures
            final(self)@ == old(self)@.update(addr as int / 4, value),
    {
        self.words[addr / 4] = value;
    }

    /// The word at byte address `addr`.
    pub fn read(&self, addr: usize) -> (r: u32)
        requires
            addr < 0x2000,
            addr % 4 == 0,
        ensures
            r == self@[addr as int / 4],
    {
        self.words[addr / 4]
    }

    /// Writes eight lanes into four consecutive DMEM words from `addr`.
    pub fn write_vector16_into_dmem(&mut self, addr: usize, vec: &[u16; 8])
        requires
            (addr & 3) == 0,
        ensures
            final(self)@ == write_dmem_words(old(self)@, addr as int, words_of_lanes16(vec@)),
    {
        proof {
            lemma_address_bits(addr, 0, 0, 0, 0);
        }
        let ghost words = words_of_lanes16(vec@);
        let mut i: usize = 0;
        while i < 4
            invariant
                0 <= i <= 4,
                addr % 4 == 0,
                words == words_of_lanes16(vec@),
                self@ == write_dmem_words(old(self)@, addr as int, words.take(i as int)),
            decreases 4 - i,
        {
            let a = dmem_word_address(addr, i);
            let value = ((vec[2 * i] as u32) << 16u32) | (vec[(2 * i) + 1] as u32);
            self.write(a, value);
            proof {
                assert(words.take(i + 1).drop_last() =~= words.take(i as int));
                assert(value == words[i as int]);
            }
            i = i + 1;
        }
        proof {
            assert(words.take(4) =~= words);
        }
    }

    /// Writes the bytes of `vec` (a multiple of 4 of them) into consecutive DMEM words from
    /// `addr`, four bytes to a word, big-endian.
    pub fn write_vector8_into_dmem(&mut self, addr: usize, vec: &[u8])
        requires
            (addr & 3) == 0,
            (vec.len() & 3) == 0,
        ensures
            final(self)@ == write_dmem_words(old(self)@, addr as int, words_of_bytes(vec@)),
    {
        proof {
            lemma_address_bits(addr, 0, 0, 0, 0);
        }
        let ghost words = words_of_bytes(vec@);
        let count = vec.len();
        let n = count >> 2;
        proof {
            lemma_address_bits(addr, 0, 0, 0, count);
        }
        let mut i: usize = 0;
        while i < n
            invariant
                0 <= i <= n,
                n == count / 4,
                count == vec@.len(),
                addr % 4 == 0,
                words == words_of_bytes(vec@),
                self@ == write_dmem_words(old(self)@, addr as int, words.take(i as int)),
            decreases n - i,
        {
            let a = dmem_word_address(addr, i % 0x400);
            proof {
                lemma_dmem_address_wraps(addr as int, i as int);
            }
            assert(4 * i + 3 < count);
            let value = ((vec[4 * i] as u32) << 24u32) | ((vec[(4 * i) + 1] as u32) << 16u32)
                | ((vec[(4 * i) + 2] as u32) << 8u32) | (vec[(4 * i) + 3] as u32);
            self.write(a, value);
            proof {
                assert(words.take(i + 1).drop_last() =~= words.take(i as int));
                assert(value == words[i as int]);
            }
            i = i + 1;
        }
        proof {
            assert(words.take(n as int) =~= words);
        }
    }

    /// Writes a vector into four consecutive DMEM words from `addr`.
    pub fn write_vector_into_dmem(&mut self, addr: usize, vec: &Vector)
        requires
            (addr & 3) == 0,
        ensures
            final(self)@ == write_dmem_words(old(self)@, addr as int, Seq::new(4, |i: int| vec.spec_get32(i))),
    {
        proof {
            lemma_address_bits(addr, 0, 0, 0, 0);
        }
        let ghost words = Seq::new(4, |i: int| vec.spec_get32(i));
        let mut i: usize = 0;
        while i < 4
            invariant
                0 <= i <= 4,
                addr % 4 == 0,
                words == Seq::new(4, |i: int| vec.spec_get32(i)),
                self@ == write_dmem_words(old(self)@, addr as int, words.take(i as int)),
            decreases 4 - i,
        {
            let a = dmem_word_address(addr, i);
            self.write(a, vec.get32(i));
            proof {
                assert(words.take(i + 1).drop_last() =~= words.take(i as int));
            }
            i = i + 1;
        }
        proof {
            assert(words.take(4) =~= words);
        }
    }

    /// Reads eight lanes from four consecutive DMEM words from `addr`.
    pub fn read_vector16_from_dmem(&self, addr: usize) -> (r: [u16; 8])
        requires
            (addr & 3) == 0,
        ensures
            r@ == lanes_of_words16(dmem_words(self@, addr as int, 4)),
    {
        proof {
            lemma_address_bits(addr, 0, 0, 0, 0);
        }
        let ghost words = dmem_words(self@, addr as int, 4);
        let mut vec: [u16; 8] = [0u16; 8];
        let mut i: usize = 0;
        while i < 4
            invariant
                0 <= i <= 4,
                addr % 4 == 0,
                vec@.len() == 8,
                words == dmem_words(self@, addr as int, 4),
                forall|j: int| 0 <= j < 2 * i ==> vec@[j] == lanes_of_words16(words)[j],
            decreases 4 - i,
        {
            let v = self.read(dmem_word_address(addr, i));
            vec[2 * i] = (v >> 16u32) as u16;
            vec[(2 * i) + 1] = v as u16;
            i = i + 1;
        }
        proof {
            assert(vec@ =~= lanes_of_words16(words));
        }
        vec
    }

    /// Reads eight lanes from four consecutive words from `addr`, which may reach into IMEM.
    pub fn read_vector16_from_dmem_or_imem(&self, addr: usize) -> (r: [u16; 8])
        requires
            (addr & 3) == 0,
            addr + 16 <= 0x2000,
        ensures
            r@ == lanes_of_words16(Seq::new(4, |i: int| self@[(addr + 4 * i) / 4])),
    {
        proof {
            lemma_address_bits(addr, 0, 0, 0, 0);
        }
        let ghost words = Seq::new(4, |i: int| self@[(addr + 4 * i) / 4]);
        let mut vec: [u16; 8] = [0u16; 8];
        let mut i: usize = 0;
        while i < 4
            invariant
                0 <= i <= 4,
                addr % 4 == 0,
                addr + 16 <= 0x2000,
                vec@.len() == 8,
                words == Seq::new(4, |i: int| self@[(addr + 4 * i) / 4]),
                forall|j: int| 0 <= j < 2 * i ==> vec@[j] == lanes_of_words16(words)[j],
            decreases 4 - i,
        {
            let v = self.read(addr + (4 * i));
            vec[2 * i] = (v >> 16u32) as u16;
            vec[(2 * i) + 1] = v as u16;
            i = i + 1;
        }
        proof {
            assert(vec@ =~= lanes_of_words16(words));
        }
        vec
    }

    /// Reads sixteen bytes from four consecutive DMEM words from `addr`, big-endian.
    pub fn read_vector8_from_dmem(&self, addr: usize) -> (r: [u8; 16])
        requires
            (addr & 3) == 0,
        ensures
            r@ == bytes_of_words(dmem_words(self@, addr as int, 4)),
    {
        proof {
            lemma_address_bits(addr, 0, 0, 0, 0);
        }
        let ghost words = dmem_words(self@, addr as int, 4);
        let mut vec: [u8; 16] = [0u8; 16];
        let mut i: usize = 0;
        while i < 4
            invariant
                0 <= i <= 4,
                addr % 4 == 0,
                vec@.len() == 16,
                words == dmem_words(self@, addr as int, 4),
                forall|j: int| 0 <= j < 4 * i ==> vec@[j] == bytes_of_words(words)[j],
            decreases 4 - i,
        {
            let v = self.read(dmem_word_address(addr, i));
            vec[4 * i] = (v >> 24u32) as u8;
            vec[(4 * i) + 1] = (v >> 16u32) as u8;
            vec[(4 * i) + 2] = (v >> 8u32) as u8;
            vec[(4 * i) + 3] = v as u8;
            proof {
                let k = 4 * i as int;
                assert(bytes_of_words(words)[k] == (words[i as int] >> 24u32) as u8);
                assert(bytes_of_words(words)[k + 1] == (words[i as int] >> 16u32) as u8);
                assert(bytes_of_words(words)[k + 2] == (words[i as int] >> 8u32) as u8);
                assert(bytes_of_words(words)[k + 3] == (words[i as int] >> 0u32) as u8);
                lemma_u32_bytes(0, 0, 0, 0, v);
            }
            i = i + 1;
        }
        proof {
            assert(vec@ =~= bytes_of_words(words));
        }
        vec
    }

    /// Reads a vector from four consecutive DMEM words from `addr`.
    pub fn read_vector_from_dmem(&self, addr: usize) -> (r: Vector)
        requires
            (addr & 3) == 0,
        ensures
            r@ == lanes_of_words(
                dmem_words(self@, addr as int, 4)[0],
                dmem_words(self@, addr as int, 4)[1],
                dmem_words(self@, addr as int, 4)[2],
                dmem_words(self@, addr as int, 4)[3],
            ),
    {
        proof {
            lemma_address_bits(addr, 0, 0, 0, 0);
        }
        Vector::new_with_u32_elements(
            self.read(dmem_word_address(addr, 0)),
            self.read(dmem_word_address(addr, 1)),
            self.read(dmem_word_address(addr, 2)),
            self.read(dmem_word_address(addr, 3)),
        )
    }
}

/// Different words among 1024 consecutive ones from a word address land at different DMEM
/// addresses, each a word address inside DMEM.
proof fn lemma_dmem_address_distinct(addr: int, k: int, l: int)
    requires
        addr >= 0,
        addr % 4 == 0,
        0 <= k < l < 0x400,
    ensures
        dmem_address(addr, k) != dmem_address(addr, l),
        dmem_address(addr, k) / 4 != dmem_address(addr, l) / 4,
        0 <= dmem_address(addr, k) / 4 < 0x400,
        dmem_address(addr, k) % 4 == 0,
        dmem_address(addr, l) % 4 == 0,
{
    let x = addr + 4 * l;
    let y = addr + 4 * k;
    vstd::arithmetic::div_mod::lemma_mod_equivalence(x, y, 0x1000);
    vstd::arithmetic::div_mod::lemma_small_mod((4 * (l - k)) as nat, 0x1000);
    assert(x - y == 4 * (l - k));
    assert(dmem_address(addr, k) % 4 == 0 && dmem_address(addr, l) % 4 == 0) by {
        vstd::arithmetic::div_mod::lemma_fundamental_div_mod(x, 0x1000);
        vstd::arithmetic::div_mod::lemma_fundamental_div_mod(y, 0x1000);
    }
}

/// Writing words to DMEM keeps the length of SPMEM and changes only DMEM words.
pub proof fn lemma_dmem_write_keeps_imem(mem: Seq<u32>, addr: int, words: Seq<u32>)
    requires
        mem.len() == 0x800,
        addr >= 0,
        addr % 4 == 0,
    ensures
        write_dmem_words(mem, addr, words).len() == 0x800,
        forall|j: int| 0x400 <= j < 0x800 ==> #[trigger] write_dmem_words(mem, addr, words)[j] == mem[j],
    decreases words.len(),
{
    if words.len() > 0 {
        lemma_dmem_write_keeps_imem(mem, addr, words.drop_last());
        let d = dmem_address(addr, words.len() - 1);
        assert(d % 4 == 0 && 0 <= d < 0x1000) by {
            vstd::arithmetic::div_mod::lemma_fundamental_div_mod(addr + 4 * (words.len() - 1), 0x1000);
        }
    }
}

/// After up to 1024 words have been written to DMEM from a word address, reading as many words
/// from that address gives them back.
pub proof fn lemma_dmem_write_then_read(mem: Seq<u32>, addr: int, words: Seq<u32>)
    requires
        mem.len() == 0x800,
        addr >= 0,
        addr % 4 == 0,
        words.len() <= 0x400,
    ensures
        dmem_words(write_dmem_words(mem, addr, words), addr, words.len()) == words,
    decreases words.len(),
{
    lemma_dmem_write_keeps_imem(mem, addr, words);
    if words.len() > 0 {
        let n = words.len() - 1;
        let prev = words.drop_last();
        lemma_dmem_write_then_read(mem, addr, prev);
        lemma_dmem_write_keeps_imem(mem, addr, prev);
        let after = write_dmem_words(mem, addr, words);
        assert forall|k: int| 0 <= k < words.len() implies #[trigger] after[dmem_address(addr, k) / 4] == words[k] by {
            if k < n {
                lemma_dmem_address_distinct(addr, k, n);
                assert(dmem_words(write_dmem_words(mem, addr, prev), addr, prev.len())[k] == prev[k]);
            } else {
                assert(dmem_address(addr, n) % 4 == 0 && 0 <= dmem_address(addr, n) < 0x1000) by {
                    vstd::arithmetic::div_mod::lemma_fundamental_div_mod(addr + 4 * n, 0x1000);
                }
            }
        }
        assert(dmem_words(after, addr, words.len()) =~= words);
    }
}

/// Splitting four words into lanes undoes packing eight lanes into four words.
pub proof fn lemma_lanes_words16(lanes: Seq<u16>)
    requires
        lanes.len() == 8,
    ensures
        lanes_of_words16(words_of_lanes16(lanes)) == lanes,
{
    assert forall|j: int| 0 <= j < 8 implies #[trigger] lanes_of_words16(words_of_lanes16(lanes))[j] == lanes[j] by {
        let h = lanes[2 * (j / 2)];
        let l = lanes[2 * (j / 2) + 1];
        lemma_u32_halves(h, l, 0);
    }
    assert(lanes_of_words16(words_of_lanes16(lanes)) =~= lanes);
}

/// Splitting words into bytes undoes packing bytes into words.
pub proof fn lemma_bytes_words(bytes: Seq<u8>)
    requires
        bytes.len() % 4 == 0,
    ensures
        bytes_of_words(words_of_bytes(bytes)) == bytes,
{
    assert forall|j: int| 0 <= j < bytes.len() implies #[trigger] bytes_of_words(words_of_bytes(bytes))[j] == bytes[j] by {
        let i = j / 4;
        let b0 = bytes[4 * i];
        let b1 = bytes[4 * i + 1];
        let b2 = bytes[4 * i + 2];
        let b3 = bytes[4 * i + 3];
        let w = word_of_bytes(b0, b1, b2, b3);
        lemma_u32_bytes(b0, b1, b2, b3, 0);
        assert(j % 4 == 0 || j % 4 == 1 || j % 4 == 2 || j % 4 == 3);
    }
    assert(bytes_of_words(words_of_bytes(bytes)) =~= bytes);
}

/// `mem` after the word stores `writes` (byte address and value, in order), each one made as
/// `SPMEM::write` makes it.
pub open spec fn apply_writes(mem: Seq<u32>, writes: Seq<(usize, u32)>) -> Seq<u32>
    decreases writes.len(),
{
    if writes.len() == 0 {
        mem
    } else {
        apply_writes(mem, writes.drop_last()).update(writes.last().0 as int / 4, writes.last().1)
    }
}

/// Whether every store of `writes` is one that `SPMEM::write` accepts.
pub open spec fn valid_writes(writes: Seq<(usize, u32)>) -> bool {
    forall|k: int| 0 <= k < writes.len() ==> #[trigger] writes[k].0 < 0x2000 && writes[k].0 % 4 == 0
}

/// Whether none of `writes` stores to one of the `n` DMEM words from `addr`.
pub open spec fn misses_dmem_words(writes: Seq<(usize, u32)>, addr: int, n: int) -> bool {
    forall|k: int, i: int| 0 <= k < writes.len() && 0 <= i < n ==>
        #[trigger] writes[k].0 as int / 4 != #[trigger] dmem_address(addr, i) / 4
}

/// Word stores keep the length of SPMEM and leave every word they do not store to unchanged.
pub proof fn lemma_apply_writes_frame(mem: Seq<u32>, writes: Seq<(usize, u32)>, j: int)
    requires
        mem.len() == 0x800,
        valid_writes(writes),
        0 <= j < mem.len(),
        forall|k: int| 0 <= k < writes.len() ==> #[trigger] writes[k].0 as int / 4 != j,
    ensures
        apply_writes(mem, writes).len() == mem.len(),
        apply_writes(mem, writes)[j] == mem[j],
    decreases writes.len(),
{
    if writes.len() > 0 {
        let prev = writes.drop_last();
        assert forall|k: int| 0 <= k < prev.len() implies #[trigger] prev[k].0 as int / 4 != j by {
            assert(prev[k] == writes[k]);
        }
        assert forall|k: int| 0 <= k < prev.len() implies #[trigger] prev[k].0 < 0x2000 && prev[k].0 % 4 == 0 by {
            assert(prev[k] == writes[k]);
        }
        lemma_apply_writes_frame(mem, prev, j);
        assert(writes.last() == writes[writes.len() - 1]);
    }
}

/// Reading `n` DMEM words from `addr` after stores that miss them gives what was there before.
pub proof fn lemma_dmem_words_after_other_writes(mem: Seq<u32>, addr: int, n: nat, writes: Seq<(usize, u32)>)
    requires
        mem.len() == 0x800,
        valid_writes(writes),
        misses_dmem_words(writes, addr, n as int),
    ensures
        dmem_words(apply_writes(mem, writes), addr, n) == dmem_words(mem, addr, n),
{
    assert forall|i: int| 0 <= i < n implies #[trigger] dmem_words(apply_writes(mem, writes), addr, n)[i]
        == dmem_words(mem, addr, n)[i] by {
        let j = dmem_address(addr, i) / 4;
        assert(0 <= dmem_address(addr, i) < 0x1000) by {
            vstd::arithmetic::div_mod::lemma_mod_bound(addr + 4 * i, 0x1000);
        }
        assert forall|k: int| 0 <= k < writes.len() implies #[trigger] writes[k].0 as int / 4 != j by {
            assert(writes[k].0 as int / 4 != dmem_address(addr, i) / 4);
        }
        lemma_apply_writes_frame(mem, writes, j);
    }
    assert(dmem_words(apply_writes(mem, writes), addr, n) =~= dmem_words(mem, addr, n));
}

/// Reading back eight lanes that were written to DMEM gives the same lanes, as long as no later
/// word store (`writes`, possibly none) went to one of their four words.
pub proof fn lemma_vector16_write_then_read(mem: Seq<u32>, addr: int, lanes: Seq<u16>, writes: Seq<(usize, u32)>)
    requires
        mem.len() == 0x800,
        addr >= 0,
        addr % 4 == 0,
        lanes.len() == 8,
        valid_writes(writes),
        misses_dmem_words(writes, addr, 4),
    ensures
        lanes_of_words16(dmem_words(apply_writes(write_dmem_words(mem, addr, words_of_lanes16(lanes)), writes), addr, 4)) == lanes,
{
    let after = write_dmem_words(mem, addr, words_of_lanes16(lanes));
    lemma_dmem_write_keeps_imem(mem, addr, words_of_lanes16(lanes));
    lemma_dmem_words_after_other_writes(after, addr, 4, writes);
    lemma_dmem_write_then_read(mem, addr, words_of_lanes16(lanes));
    lemma_lanes_words16(lanes);
}

/// Reading back sixteen bytes that were written to DMEM gives the same bytes, as long as no
/// later word store (`writes`, possibly none) went to one of their four words.
pub proof fn lemma_vector8_write_then_read(mem: Seq<u32>, addr: int, bytes: Seq<u8>, writes: Seq<(usize, u32)>)
    requires
        mem.len() == 0x800,
        addr >= 0,
        addr % 4 == 0,
        bytes.len() == 16,
        valid_writes(writes),
        misses_dmem_words(writes, addr, 4),
    ensures
        bytes_of_words(dmem_words(apply_writes(write_dmem_words(mem, addr, words_of_bytes(bytes)), writes), addr, 4)) == bytes,
{
    let after = write_dmem_words(mem, addr, words_of_bytes(bytes));
    lemma_dmem_write_keeps_imem(mem, addr, words_of_bytes(bytes));
    lemma_dmem_words_after_other_writes(after, addr, 4, writes);
    lemma_dmem_write_then_read(mem, addr, words_of_bytes(bytes));
    lemma_bytes_words(bytes);
}

/// Reading back a vector that was written to DMEM gives the same vector, as long as no later
/// word store (`writes`, possibly none) went to one of its four words.
pub proof fn lemma_vector_write_then_read(mem: Seq<u32>, addr: int, v: Vector, writes: Seq<(usize, u32)>)
    requires
        mem.len() == 0x800,
        addr >= 0,
        addr % 4 == 0,
        valid_writes(writes),
        misses_dmem_words(writes, addr, 4),
    ensures
        ({
            let words = dmem_words(
                apply_writes(write_dmem_words(mem, addr, Seq::new(4, |i: int| v.spec_get32(i))), writes),
                addr,
                4,
            );
            lanes_of_words(words[0], words[1], words[2], words[3]) == v@
        }),
{
    let ws = Seq::new(4, |i: int| v.spec_get32(i));
    let after = write_dmem_words(mem, addr, ws);
    lemma_dmem_write_keeps_imem(mem, addr, ws);
    lemma_dmem_words_after_other_writes(after, addr, 4, writes);
    lemma_dmem_write_then_read(mem, addr, ws);
    v.lemma_len();
    assert forall|j: int| 0 <= j < 8 implies #[trigger] lanes_of_words(ws[0], ws[1], ws[2], ws[3])[j] == v@[j] by {
        let h = v@[2 * (j / 2)];
        let l = v@[2 * (j / 2) + 1];
        lemma_u32_halves(h, l, 0);
    }
    assert(lanes_of_words(ws[0], ws[1], ws[2], ws[3]) =~= v@);
}

} // verus!
