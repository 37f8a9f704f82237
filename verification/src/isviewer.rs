//! The IS-Viewer debug output: text is written as big-endian words into a buffer on the
//! cartridge bus, in chunks of at most 512 bytes, and a store of the chunk's length prints it.

use vstd::prelude::*;

use crate::bits::lemma_u32_bytes;
use crate::rsp::spmem::{bytes_of_words, word_of_bytes};

verus! {

/// The address of the length register; a store prints the buffer.
pub const WRITE_LEN: u32 = 0xB3FF0014;

/// The address of the text buffer.
pub const BUF: u32 = 0xB3FF0020;

/// The most bytes that one print takes.
pub const CHUNK: usize = 0x200;

/// Byte `k` of `chunk`, or 0 past its end.
pub open spec fn byte_or_zero(chunk: Seq<u8>, k: int) -> u8 {
    if k < chunk.len() { chunk[k] } else { 0 }
}

/// `chunk` packed into big-endian words, the last one padded with zero bytes.
pub open spec fn packed_words(chunk: Seq<u8>) -> Seq<u32> {
    Seq::new(((chunk.len() + 3) / 4) as nat, |i: int| word_of_bytes(
        byte_or_zero(chunk, 4 * i),
        byte_or_zero(chunk, 4 * i + 1),
        byte_or_zero(chunk, 4 * i + 2),
        byte_or_zero(chunk, 4 * i + 3),
    ))
}

/// Packs bytes into the words that go to the buffer, four bytes to a word with the first byte in
/// the most significant position; a last partial word is padded with zero bytes.
pub fn pack(chunk: &[u8]) -> (r: Vec<u32>)
    ensures
        r@ == packed_words(chunk@),
{
    let len = chunk.len();
    let n = len / 4 + if len % 4 == 0 { 0 } else { 1 };
    assert(n == (len + 3) / 4);
    let mut words: Vec<u32> = Vec::new();
    let mut i: usize = 0;
    while i < n
        invariant
            0 <= i <= n,
            n == (len + 3) / 4,
            len == chunk@.len(),
            words@.len() == i,
            forall|j: int| 0 <= j < i ==> #[trigger] words@[j] == packed_words(chunk@)[j],
        decreases n - i,
    {
        let b0: u8 = if 4 * i < len { chunk[4 * i] } else { 0 };
        let b1: u8 = if 4 * i + 1 < len { chunk[4 * i + 1] } else { 0 };
        let b2: u8 = if 4 * i + 2 < len { chunk[4 * i + 2] } else { 0 };
        let b3: u8 = if 4 * i + 3 < len { chunk[4 * i + 3] } else { 0 };
        words.push(((b0 as u32) << 24u32) | ((b1 as u32) << 16u32) | ((b2 as u32) << 8u32) | (b3 as u32));
        i = i + 1;
    }
    assert(words@ =~= packed_words(chunk@));
    words
}

/// Splitting the packed words into bytes gives back the chunk, followed by zero padding.
pub proof fn lemma_pack_keeps_bytes(chunk: Seq<u8>)
    ensures
        bytes_of_words(packed_words(chunk)).len() >= chunk.len(),
        forall|j: int| 0 <= j < bytes_of_words(packed_words(chunk)).len() ==>
            #[trigger] bytes_of_words(packed_words(chunk))[j] == byte_or_zero(chunk, j),
{
    let words = packed_words(chunk);
    assert forall|j: int| 0 <= j < bytes_of_words(words).len() implies #[trigger] bytes_of_words(words)[j] == byte_or_zero(chunk, j) by {
        let i = j / 4;
        let b0 = byte_or_zero(chunk, 4 * i);
        let b1 = byte_or_zero(chunk, 4 * i + 1);
        let b2 = byte_or_zero(chunk, 4 * i + 2);
        let b3 = byte_or_zero(chunk, 4 * i + 3);
        let w = word_of_bytes(b0, b1, b2, b3);
        lemma_u32_bytes(b0, b1, b2, b3, 0);
        assert(j % 4 == 0 || j % 4 == 1 || j % 4 == 2 || j % 4 == 3);
    }
}

/// A chunk of at most `CHUNK` bytes fills at most the buffer's 512 bytes, and its words hold all
/// of its bytes.
pub proof fn lemma_chunk_fits_buffer(chunk: Seq<u8>)
    requires
        chunk.len() <= CHUNK,
    ensures
        4 * packed_words(chunk).len() <= CHUNK,
        4 * packed_words(chunk).len() >= chunk.len(),
{
}

} // verus!
