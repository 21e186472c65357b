//! Bit and byte helpers shared by all hardware models.
//!
//! Values are split and joined arithmetically, so that contracts over them
//! stay in linear arithmetic.
use vstd::prelude::*;

verus! {

/// Low half-word of a word.
pub open spec fn spec_lo16(x: u32) -> u16 {
    (x % 0x10000) as u16
}

/// High half-word of a word.
pub open spec fn spec_hi16(x: u32) -> u16 {
    (x / 0x10000) as u16
}

/// Word assembled from a high and a low half-word.
pub open spec fn spec_make32(hi: u16, lo: u16) -> u32 {
    (hi * 0x10000 + lo) as u32
}

/// Low byte of a half-word.
pub open spec fn spec_lo8(x: u16) -> u8 {
    (x % 0x100) as u8
}

/// High byte of a half-word.
pub open spec fn spec_hi8(x: u16) -> u8 {
    (x / 0x100) as u8
}

/// Half-word assembled from a high and a low byte.
pub open spec fn spec_make16(hi: u8, lo: u8) -> u16 {
    (hi * 0x100 + lo) as u16
}

/// Low word of a double word.
pub open spec fn spec_lo32(x: u64) -> u32 {
    (x % 0x1_0000_0000) as u32
}

/// High word of a double word.
pub open spec fn spec_hi32(x: u64) -> u32 {
    (x / 0x1_0000_0000) as u32
}

/// Double word assembled from a high and a low word.
pub open spec fn spec_make64(hi: u32, lo: u32) -> u64 {
    (hi * 0x1_0000_0000 + lo) as u64
}

pub fn lo16(x: u32) -> (r: u16)
    ensures
        r == spec_lo16(x),
{
    (x % 0x10000) as u16
}

pub fn hi16(x: u32) -> (r: u16)
    ensures
        r == spec_hi16(x),
{
    (x / 0x10000) as u16
}

pub fn make32(hi: u16, lo: u16) -> (r: u32)
    ensures
        r == spec_make32(hi, lo),
        r == hi * 0x10000 + lo,
        spec_hi16(r) == hi,
        spec_lo16(r) == lo,
{
    (hi as u32) * 0x10000 + (lo as u32)
}

/// Replace the low half-word of a word.
pub fn set_lo16(x: u32, lo: u16) -> (r: u32)
    ensures
        r == spec_make32(spec_hi16(x), lo),
        spec_lo16(r) == lo,
        spec_hi16(r) == spec_hi16(x),
{
    make32(hi16(x), lo)
}

/// Replace the high half-word of a word.
pub fn set_hi16(x: u32, hi: u16) -> (r: u32)
    ensures
        r == spec_make32(hi, spec_lo16(x)),
        spec_lo16(r) == spec_lo16(x),
        spec_hi16(r) == hi,
{
    make32(hi, lo16(x))
}

pub fn lo8(x: u16) -> (r: u8)
    ensures
        r == spec_lo8(x),
{
    (x % 0x100) as u8
}

pub fn hi8(x: u16) -> (r: u8)
    ensures
        r == spec_hi8(x),
{
    (x / 0x100) as u8
}

pub fn make16(hi: u8, lo: u8) -> (r: u16)
    ensures
        r == spec_make16(hi, lo),
        r == hi * 0x100 + lo,
        spec_hi8(r) == hi,
        spec_lo8(r) == lo,
{
    (hi as u16) * 0x100 + (lo as u16)
}

/// Replace the low byte of a half-word.
pub fn set_lo8(x: u16, lo: u8) -> (r: u16)
    ensures
        r == spec_make16(spec_hi8(x), lo),
        spec_lo8(r) == lo,
        spec_hi8(r) == spec_hi8(x),
{
    make16(hi8(x), lo)
}

/// Replace the high byte of a half-word.
pub fn set_hi8(x: u16, hi: u8) -> (r: u16)
    ensures
        r == spec_make16(hi, spec_lo8(x)),
        spec_lo8(r) == spec_lo8(x),
        spec_hi8(r) == hi,
{
    make16(hi, lo8(x))
}

pub fn lo32(x: u64) -> (r: u32)
    ensures
        r == spec_lo32(x),
{
    (x % 0x1_0000_0000) as u32
}

pub fn hi32(x: u64) -> (r: u32)
    ensures
        r == spec_hi32(x),
{
    (x / 0x1_0000_0000) as u32
}

pub fn make64(hi: u32, lo: u32) -> (r: u64)
    ensures
        r == spec_make64(hi, lo),
        r == hi * 0x1_0000_0000 + lo,
        spec_hi32(r) == hi,
        spec_lo32(r) == lo,
{
    (hi as u64) * 0x1_0000_0000 + (lo as u64)
}

/// Replace the low word of a double word.
pub fn set_lo32(x: u64, lo: u32) -> (r: u64)
    ensures
        r == spec_make64(spec_hi32(x), lo),
        spec_lo32(r) == lo,
        spec_hi32(r) == spec_hi32(x),
{
    make64(hi32(x), lo)
}

/// Replace the high word of a double word.
pub fn set_hi32(x: u64, hi: u32) -> (r: u64)
    ensures
        r == spec_make64(hi, spec_lo32(x)),
        spec_lo32(r) == spec_lo32(x),
        spec_hi32(r) == hi,
{
    make64(hi, lo32(x))
}

/// Whether bit `n` of a byte is set.
pub open spec fn spec_test_bit8(x: u8, n: u8) -> bool {
    (x >> n) & 1 == 1
}

pub fn test_bit8(x: u8, n: u8) -> (r: bool)
    requires
        n < 8,
    ensures
        r == spec_test_bit8(x, n),
{
    (x >> n) & 1 == 1
}

/// Whether bit `n` of a half-word is set.
pub open spec fn spec_test_bit16(x: u16, n: u16) -> bool {
    (x >> n) & 1 == 1
}

pub fn test_bit16(x: u16, n: u16) -> (r: bool)
    requires
        n < 16,
    ensures
        r == spec_test_bit16(x, n),
{
    (x >> n) & 1 == 1
}

/// Whether bit `n` of a word is set.
pub open spec fn spec_test_bit32(x: u32, n: u32) -> bool {
    (x >> n) & 1 == 1
}

pub fn test_bit32(x: u32, n: u32) -> (r: bool)
    requires
        n < 32,
    ensures
        r == spec_test_bit32(x, n),
{
    (x >> n) & 1 == 1
}

/// A mask bounds the masked value.
pub proof fn lemma_and_le16(x: u16, m: u16)
    ensures
        x & m <= m,
{
    assert(x & m <= m) by (bit_vector);
}

/// A mask bounds the masked value.
pub proof fn lemma_and_le32(x: u32, m: u32)
    ensures
        x & m <= m,
{
    assert(x & m <= m) by (bit_vector);
}

/// Joining the halves of a word gives the word back.
pub proof fn lemma_split32(x: u32)
    ensures
        spec_make32(spec_hi16(x), spec_lo16(x)) == x,
{
}

/// Splitting a joined word gives its halves back.
pub proof fn lemma_join32(hi: u16, lo: u16)
    ensures
        spec_hi16(spec_make32(hi, lo)) == hi,
        spec_lo16(spec_make32(hi, lo)) == lo,
{
}

} // verus!
