//! Bit fields inside fixed-width registers: reading a field, replacing a field, and the laws
//! that tie the two together; and the packing of bytes and half-words into wider words.

use vstd::prelude::*;

verus! {

/// A mask with the low `width` bits set (for `width < 16`).
pub open spec fn mask16(width: u32) -> u16 {
    !(0xFFFFu16 << width)
}

/// The `width`-bit field of `raw` that starts at bit `lo`.
pub open spec fn field16(raw: u16, lo: u32, width: u32) -> u16 {
    (raw >> lo) & mask16(width)
}

/// `raw` with its `width`-bit field at `lo` replaced by `value`.
pub open spec fn set_field16(raw: u16, lo: u32, width: u32, value: u16) -> u16 {
    (raw & !(mask16(width) << lo)) | (value << lo)
}

/// Whether a field position fits in a 16 bit register.
pub open spec fn valid_field16(lo: u32, width: u32) -> bool {
    0 < width < 16 && lo + width <= 16
}

/// The facts behind the field laws, proved together.
proof fn lemma_field16_facts(raw: u16, lo: u32, width: u32, value: u16, lo2: u32, width2: u32)
    by (bit_vector)
    ensures
        0 < width < 16 && lo + width <= 16 ==> field16(raw, lo, width) <= mask16(width),
        0 < width < 16 && lo + width <= 16 && value <= mask16(width) ==>
            field16(set_field16(raw, lo, width, value), lo, width) == value,
        0 < width < 16 && lo + width <= 16 && 0 < width2 < 16 && lo2 + width2 <= 16
            && (lo + width <= lo2 || lo2 + width2 <= lo) && value <= mask16(width) ==>
            field16(set_field16(raw, lo, width, value), lo2, width2) == field16(raw, lo2, width2),
        0 < width < 16 && lo + width <= 16 ==> set_field16(raw, lo, width, field16(raw, lo, width)) == raw,
{
}

/// A field never holds more than its width allows.
pub proof fn lemma_field16_bound(raw: u16, lo: u32, width: u32)
    requires
        valid_field16(lo, width),
    ensures
        field16(raw, lo, width) <= mask16(width),
{
    lemma_field16_facts(raw, lo, width, 0, lo, width);
}

/// Reading a field that was just replaced gives back the value that was written.
pub proof fn lemma_field16_set_get(raw: u16, lo: u32, width: u32, value: u16)
    requires
        valid_field16(lo, width),
        value <= mask16(width),
    ensures
        field16(set_field16(raw, lo, width, value), lo, width) == value,
{
    lemma_field16_facts(raw, lo, width, value, lo, width);
}

/// Replacing a field leaves every field that does not overlap it unchanged.
pub proof fn lemma_field16_set_other(raw: u16, lo: u32, width: u32, value: u16, lo2: u32, width2: u32)
    requires
        valid_field16(lo, width),
        valid_field16(lo2, width2),
        lo + width <= lo2 || lo2 + width2 <= lo,
        value <= mask16(width),
    ensures
        field16(set_field16(raw, lo, width, value), lo2, width2) == field16(raw, lo2, width2),
{
    lemma_field16_facts(raw, lo, width, value, lo2, width2);
}

/// Writing back the value a field already holds changes nothing.
pub proof fn lemma_field16_set_same(raw: u16, lo: u32, width: u32)
    requires
        valid_field16(lo, width),
    ensures
        set_field16(raw, lo, width, field16(raw, lo, width)) == raw,
{
    lemma_field16_facts(raw, lo, width, 0, lo, width);
}

/// Reads the `width`-bit field of `raw` that starts at bit `lo`.
pub fn get_field16(raw: u16, lo: u32, width: u32) -> (r: u16)
    requires
        valid_field16(lo, width),
    ensures
        r == field16(raw, lo, width),
        r <= mask16(width),
{
    proof {
        lemma_field16_bound(raw, lo, width);
    }
    (raw >> lo) & !(0xFFFFu16 << width)
}

/// Replaces the `width`-bit field of `raw` that starts at bit `lo` by `value`.
pub fn with_field16(raw: u16, lo: u32, width: u32, value: u16) -> (r: u16)
    requires
        valid_field16(lo, width),
        value <= mask16(width),
    ensures
        r == set_field16(raw, lo, width, value),
{
    (raw & !((!(0xFFFFu16 << width)) << lo)) | (value << lo)
}

/// The masks of the field widths in use.
pub proof fn lemma_mask16_values()
    by (bit_vector)
    ensures
        mask16(1) == 0x1u16,
        mask16(2) == 0x3u16,
        mask16(3) == 0x7u16,
        mask16(5) == 0x1fu16,
        mask16(8) == 0xffu16,
{
}

/// A mask with the low `width` bits set (for `width < 32`).
pub open spec fn mask32(width: u32) -> u32 {
    !(0xFFFF_FFFFu32 << width)
}

/// The `width`-bit field of `raw` that starts at bit `lo`.
pub open spec fn field32(raw: u32, lo: u32, width: u32) -> u32 {
    (raw >> lo) & mask32(width)
}

/// `raw` with its `width`-bit field at `lo` replaced by `value`.
pub open spec fn set_field32(raw: u32, lo: u32, width: u32, value: u32) -> u32 {
    (raw & !(mask32(width) << lo)) | (value << lo)
}

/// Whether a field position fits in a 32 bit register.
pub open spec fn valid_field32(lo: u32, width: u32) -> bool {
    0 < width < 32 && lo + width <= 32
}

/// The facts behind the field laws, proved together.
proof fn lemma_field32_facts(raw: u32, lo: u32, width: u32, value: u32, lo2: u32, width2: u32)
    by (bit_vector)
    ensures
        0 < width < 32 && lo + width <= 32 ==> field32(raw, lo, width) <= mask32(width),
        0 < width < 32 && lo + width <= 32 && value <= mask32(width) ==>
            field32(set_field32(raw, lo, width, value), lo, width) == value,
        0 < width < 32 && lo + width <= 32 && 0 < width2 < 32 && lo2 + width2 <= 32
            && (lo + width <= lo2 || lo2 + width2 <= lo) && value <= mask32(width) ==>
            field32(set_field32(raw, lo, width, value), lo2, width2) == field32(raw, lo2, width2),
        0 < width < 32 && lo + width <= 32 ==> set_field32(raw, lo, width, field32(raw, lo, width)) == raw,
{
}

/// A field never holds more than its width allows.
pub proof fn lemma_field32_bound(raw: u32, lo: u32, width: u32)
    requires
        valid_field32(lo, width),
    ensures
        field32(raw, lo, width) <= mask32(width),
{
    lemma_field32_facts(raw, lo, width, 0, lo, width);
}

/// Reading a field that was just replaced gives back the value that was written.
pub proof fn lemma_field32_set_get(raw: u32, lo: u32, width: u32, value: u32)
    requires
        valid_field32(lo, width),
        value <= mask32(width),
    ensures
        field32(set_field32(raw, lo, width, value), lo, width) == value,
{
    lemma_field32_facts(raw, lo, width, value, lo, width);
}

/// Replacing a field leaves every field that does not overlap it unchanged.
pub proof fn lemma_field32_set_other(raw: u32, lo: u32, width: u32, value: u32, lo2: u32, width2: u32)
    requires
        valid_field32(lo, width),
        valid_field32(lo2, width2),
        lo + width <= lo2 || lo2 + width2 <= lo,
        value <= mask32(width),
    ensures
        field32(set_field32(raw, lo, width, value), lo2, width2) == field32(raw, lo2, width2),
{
    lemma_field32_facts(raw, lo, width, value, lo2, width2);
}

/// Writing back the value a field already holds changes nothing.
pub proof fn lemma_field32_set_same(raw: u32, lo: u32, width: u32)
    requires
        valid_field32(lo, width),
    ensures
        set_field32(raw, lo, width, field32(raw, lo, width)) == raw,
{
    lemma_field32_facts(raw, lo, width, 0, lo, width);
}

/// Reads the `width`-bit field of `raw` that starts at bit `lo`.
pub fn get_field32(raw: u32, lo: u32, width: u32) -> (r: u32)
    requires
        valid_field32(lo, width),
    ensures
        r == field32(raw, lo, width),
        r <= mask32(width),
{
    proof {
        lemma_field32_bound(raw, lo, width);
    }
    (raw >> lo) & !(0xFFFF_FFFFu32 << width)
}

/// Replaces the `width`-bit field of `raw` that starts at bit `lo` by `value`.
pub fn with_field32(raw: u32, lo: u32, width: u32, value: u32) -> (r: u32)
    requires
        valid_field32(lo, width),
        value <= mask32(width),
    ensures
        r == set_field32(raw, lo, width, value),
{
    (raw & !((!(0xFFFF_FFFFu32 << width)) << lo)) | (value << lo)
}

/// The masks of the field widths in use.
pub proof fn lemma_mask32_values()
    by (bit_vector)
    ensures
        mask32(1) == 0x1u32,
        mask32(2) == 0x3u32,
        mask32(3) == 0x7u32,
        mask32(5) == 0x1fu32,
        mask32(8) == 0xffu32,
        mask32(19) == 0x7ffffu32,
        mask32(26) == 0x3ffffffu32,
        mask32(27) == 0x7ffffffu32,
        mask32(31) == 0x7fffffffu32,
{
}

/// A mask with the low `width` bits set (for `width < 64`).
pub open spec fn mask64(width: u32) -> u64 {
    !(0xFFFF_FFFF_FFFF_FFFFu64 << width)
}

/// The `width`-bit field of `raw` that starts at bit `lo`.
pub open spec fn field64(raw: u64, lo: u32, width: u32) -> u64 {
    (raw >> lo) & mask64(width)
}

/// `raw` with its `width`-bit field at `lo` replaced by `value`.
pub open spec fn set_field64(raw: u64, lo: u32, width: u32, value: u64) -> u64 {
    (raw & !(mask64(width) << lo)) | (value << lo)
}

/// Whether a field position fits in a 64 bit register.
pub open spec fn valid_field64(lo: u32, width: u32) -> bool {
    0 < width < 64 && lo + width <= 64
}

/// The facts behind the field laws, proved together.
#[verifier::rlimit(100)]
proof fn lemma_field64_facts(raw: u64, lo: u32, width: u32, value: u64, lo2: u32, width2: u32)
    by (bit_vector)
    ensures
        0 < width < 64 && lo + width <= 64 ==> field64(raw, lo, width) <= mask64(width),
        0 < width < 64 && lo + width <= 64 && value <= mask64(width) ==>
            field64(set_field64(raw, lo, width, value), lo, width) == value,
        0 < width < 64 && lo + width <= 64 && 0 < width2 < 64 && lo2 + width2 <= 64
            && (lo + width <= lo2 || lo2 + width2 <= lo) && value <= mask64(width) ==>
            field64(set_field64(raw, lo, width, value), lo2, width2) == field64(raw, lo2, width2),
        0 < width < 64 && lo + width <= 64 ==> set_field64(raw, lo, width, field64(raw, lo, width)) == raw,
{
}

/// A field never holds more than its width allows.
pub proof fn lemma_field64_bound(raw: u64, lo: u32, width: u32)
    requires
        valid_field64(lo, width),
    ensures
        field64(raw, lo, width) <= mask64(width),
{
    lemma_field64_facts(raw, lo, width, 0, lo, width);
}

/// Reading a field that was just replaced gives back the value that was written.
pub proof fn lemma_field64_set_get(raw: u64, lo: u32, width: u32, value: u64)
    requires
        valid_field64(lo, width),
        value <= mask64(width),
    ensures
        field64(set_field64(raw, lo, width, value), lo, width) == value,
{
    lemma_field64_facts(raw, lo, width, value, lo, width);
}

/// Replacing a field leaves every field that does not overlap it unchanged.
pub proof fn lemma_field64_set_other(raw: u64, lo: u32, width: u32, value: u64, lo2: u32, width2: u32)
    requires
        valid_field64(lo, width),
        valid_field64(lo2, width2),
        lo + width <= lo2 || lo2 + width2 <= lo,
        value <= mask64(width),
    ensures
        field64(set_field64(raw, lo, width, value), lo2, width2) == field64(raw, lo2, width2),
{
    lemma_field64_facts(raw, lo, width, value, lo2, width2);
}

/// Writing back the value a field already holds changes nothing.
pub proof fn lemma_field64_set_same(raw: u64, lo: u32, width: u32)
    requires
        valid_field64(lo, width),
    ensures
        set_field64(raw, lo, width, field64(raw, lo, width)) == raw,
{
    lemma_field64_facts(raw, lo, width, 0, lo, width);
}

/// Reads the `width`-bit field of `raw` that starts at bit `lo`.
pub fn get_field64(raw: u64, lo: u32, width: u32) -> (r: u64)
    requires
        valid_field64(lo, width),
    ensures
        r == field64(raw, lo, width),
        r <= mask64(width),
{
    proof {
        lemma_field64_bound(raw, lo, width);
    }
    (raw >> lo) & !(0xFFFF_FFFF_FFFF_FFFFu64 << width)
}

/// Replaces the `width`-bit field of `raw` that starts at bit `lo` by `value`.
pub fn with_field64(raw: u64, lo: u32, width: u32, value: u64) -> (r: u64)
    requires
        valid_field64(lo, width),
        value <= mask64(width),
    ensures
        r == set_field64(raw, lo, width, value),
{
    (raw & !((!(0xFFFF_FFFF_FFFF_FFFFu64 << width)) << lo)) | (value << lo)
}

/// The masks of the field widths in use.
pub proof fn lemma_mask64_values()
    by (bit_vector)
    ensures
        mask64(1) == 0x1u64,
        mask64(2) == 0x3u64,
        mask64(19) == 0x7ffffu64,
        mask64(27) == 0x7ffffffu64,
        mask64(31) == 0x7fffffffu64,
        mask64(41) == 0x1ffffffffffu64,
{
}

/// The big-endian word of two half-words.
pub open spec fn u32_of_halves(high: u16, low: u16) -> u32 {
    ((high as u32) << 16u32) | (low as u32)
}

/// The big-endian half-word of two bytes.
pub open spec fn u16_of_bytes(high: u8, low: u8) -> u16 {
    ((high as u16) << 8u16) | (low as u16)
}

/// The big-endian word of four bytes.
pub open spec fn u32_of_bytes(b0: u8, b1: u8, b2: u8, b3: u8) -> u32 {
    ((b0 as u32) << 24u32) | ((b1 as u32) << 16u32) | ((b2 as u32) << 8u32) | (b3 as u32)
}

/// Splitting a word into half-words and joining them are inverse.
pub proof fn lemma_u32_halves(high: u16, low: u16, word: u32)
    by (bit_vector)
    ensures
        (u32_of_halves(high, low) >> 16u32) as u16 == high,
        u32_of_halves(high, low) as u16 == low,
        u32_of_halves((word >> 16u32) as u16, word as u16) == word,
{
}

/// Splitting a half-word into bytes and joining them are inverse.
pub proof fn lemma_u16_bytes(high: u8, low: u8, half: u16)
    by (bit_vector)
    ensures
        (u16_of_bytes(high, low) >> 8u16) as u8 == high,
        u16_of_bytes(high, low) as u8 == low,
        u16_of_bytes((half >> 8u16) as u8, half as u8) == half,
{
}

/// Splitting a word into bytes and joining them are inverse.
pub proof fn lemma_u32_bytes(b0: u8, b1: u8, b2: u8, b3: u8, word: u32)
    by (bit_vector)
    ensures
        (u32_of_bytes(b0, b1, b2, b3) >> 24u32) as u8 == b0,
        (u32_of_bytes(b0, b1, b2, b3) >> 16u32) as u8 == b1,
        (u32_of_bytes(b0, b1, b2, b3) >> 8u32) as u8 == b2,
        (u32_of_bytes(b0, b1, b2, b3) >> 0u32) as u8 == b3,
        u32_of_bytes((word >> 24u32) as u8, (word >> 16u32) as u8, (word >> 8u32) as u8, word as u8) == word,
        word >> 0u32 == word,
        u32_of_bytes(0, 0, 0, 0) == 0,
{
}

} // verus!
