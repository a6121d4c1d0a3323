//! Byte and word arithmetic as the processor performs it: sums that wrap
//! at eight or sixteen bits, and words assembled from byte pairs.

use vstd::prelude::*;

verus! {

/// The byte that an eight-bit register keeps of `n`.
pub open spec fn wrap8(n: int) -> u8 {
    (n % 256) as u8
}

/// The word that a sixteen-bit register keeps of `n`.
pub open spec fn wrap16(n: int) -> u16 {
    (n % 65536) as u16
}

/// The little-endian word with low byte `lo` and high byte `hi`.
pub open spec fn word(lo: u8, hi: u8) -> u16 {
    (hi as int * 256 + lo as int) as u16
}

/// The value of a byte read as a two's complement number.
pub open spec fn signed8(b: u8) -> int {
    if b >= 128 {
        b as int - 256
    } else {
        b as int
    }
}

/// Eight-bit sum, wrapping past 0xFF.
pub fn add8(a: u8, b: u8) -> (sum: u8)
    ensures
        sum == wrap8(a + b),
{
    if a > 255 - b {
        a - (255 - b) - 1
    } else {
        a + b
    }
}

/// Eight-bit difference, wrapping below zero.
pub fn sub8(a: u8, b: u8) -> (difference: u8)
    ensures
        difference == wrap8(a - b),
{
    if a < b {
        255 - (b - a) + 1
    } else {
        a - b
    }
}

/// Sixteen-bit sum, wrapping past 0xFFFF.
pub fn add16(a: u16, b: u16) -> (sum: u16)
    ensures
        sum == wrap16(a + b),
{
    if a > 65535 - b {
        a - (65535 - b) - 1
    } else {
        a + b
    }
}

/// Sixteen-bit difference, wrapping below zero.
pub fn sub16(a: u16, b: u16) -> (difference: u16)
    ensures
        difference == wrap16(a - b),
{
    if a < b {
        65535 - (b - a) + 1
    } else {
        a - b
    }
}

/// A word moved by a signed byte offset, wrapping at sixteen bits.
pub fn offset16(base: u16, displacement: u8) -> (target: u16)
    ensures
        target == wrap16(base + signed8(displacement)),
{
    if displacement >= 128 {
        sub16(base, 256 - displacement as u16)
    } else {
        add16(base, displacement as u16)
    }
}

/// Joins two bytes into a little-endian word.
pub fn make_word(lo: u8, hi: u8) -> (w: u16)
    ensures
        w == word(lo, hi),
{
    hi as u16 * 256 + lo as u16
}

/// Low byte of a word.
pub fn low_byte(w: u16) -> (lo: u8)
    ensures
        lo == w % 256,
{
    (w % 256) as u8
}

/// High byte of a word.
pub fn high_byte(w: u16) -> (hi: u8)
    ensures
        hi == w / 256,
{
    (w / 256) as u8
}

/// Sixteen-bit value with its low byte replaced.
pub fn with_low_byte(current: u16, low: u8) -> (w: u16)
    ensures
        w == (current / 256) * 256 + low,
        w / 256 == current / 256,
        w % 256 == low,
{
    (current / 256) * 256 + low as u16
}

/// Sixteen-bit value with its high byte replaced.
pub fn with_high_byte(current: u16, high: u8) -> (w: u16)
    ensures
        w == high * 256 + current % 256,
        w / 256 == high,
        w % 256 == current % 256,
{
    high as u16 * 256 + current % 256
}

/// A word is the join of its own two bytes.
pub proof fn lemma_word_of_bytes(w: u16)
    ensures
        word((w % 256) as u8, (w / 256) as u8) == w,
{
}

} // verus!
