//! Bit-level helpers for the eight- and thirty-two-bit register images.
//!
//! Control and status registers are plain integers in this model. These
//! functions read and rewrite single bits and contiguous fields; the lemmas
//! state what each rewrite does to every bit of the word, so that callers can
//! prove both the bits they changed and the bits they left alone.

use vstd::prelude::*;

verus! {

/// Bit `i` of the byte `v`.
pub open spec fn u8_bit(v: u8, i: u8) -> bool {
    (v >> i) & 1 == 1
}

/// Bit `i` of the word `v`.
pub open spec fn u32_bit(v: u32, i: u32) -> bool {
    (v >> i) & 1 == 1
}

/// The `width`-bit field of `v` starting at bit `lo`, shifted down to the
/// low end of the result.
pub open spec fn u8_field(v: u8, lo: u8, width: u8) -> u8 {
    (v >> lo) & (((1u8 << width) - 1) as u8)
}

/// The `width`-bit field of `v` starting at bit `lo`, shifted down to the
/// low end of the result.
pub open spec fn u32_field(v: u32, lo: u32, width: u32) -> u32 {
    (v >> lo) & (((1u32 << width) - 1) as u32)
}

/// `v` with bit `i` forced to `b`.
pub open spec fn spec_u8_set_bit(v: u8, i: u8, b: bool) -> u8 {
    if b {
        v | (1u8 << i)
    } else {
        v & (!(1u8 << i))
    }
}

/// `v` with bit `i` forced to `b`.
pub open spec fn spec_u32_set_bit(v: u32, i: u32, b: bool) -> u32 {
    if b {
        v | (1u32 << i)
    } else {
        v & (!(1u32 << i))
    }
}

/// `v` with the `width`-bit field at `lo` replaced by `x`.
pub open spec fn spec_u8_set_field(v: u8, lo: u8, width: u8, x: u8) -> u8 {
    (v & (!((((1u8 << width) - 1) as u8) << lo))) | (x << lo)
}

/// `v` with the `width`-bit field at `lo` replaced by `x`.
pub open spec fn spec_u32_set_field(v: u32, lo: u32, width: u32, x: u32) -> u32 {
    (v & (!((((1u32 << width) - 1) as u32) << lo))) | (x << lo)
}

pub fn u8_get_bit(v: u8, i: u8) -> (r: bool)
    requires
        i < 8,
    ensures
        r == u8_bit(v, i),
{
    (v >> i) & 1 == 1
}

pub fn u32_get_bit(v: u32, i: u32) -> (r: bool)
    requires
        i < 32,
    ensures
        r == u32_bit(v, i),
{
    (v >> i) & 1 == 1
}

pub fn u8_get_field(v: u8, lo: u8, width: u8) -> (r: u8)
    requires
        lo < 8,
        1 <= width < 8,
        lo + width <= 8,
    ensures
        r == u8_field(v, lo, width),
{
    proof {
        assert(1u8 << width >= 1) by (bit_vector)
            requires
                width < 8,
        ;
    }
    (v >> lo) & ((1u8 << width) - 1)
}

pub fn u32_get_field(v: u32, lo: u32, width: u32) -> (r: u32)
    requires
        lo < 32,
        1 <= width < 32,
        lo + width <= 32,
    ensures
        r == u32_field(v, lo, width),
{
    proof {
        assert(1u32 << width >= 1) by (bit_vector)
            requires
                width < 32,
        ;
    }
    (v >> lo) & ((1u32 << width) - 1)
}

pub fn u8_set_bit(v: u8, i: u8, b: bool) -> (r: u8)
    requires
        i < 8,
    ensures
        r == spec_u8_set_bit(v, i, b),
{
    if b {
        v | (1u8 << i)
    } else {
        v & (!(1u8 << i))
    }
}

pub fn u32_set_bit(v: u32, i: u32, b: bool) -> (r: u32)
    requires
        i < 32,
    ensures
        r == spec_u32_set_bit(v, i, b),
{
    if b {
        v | (1u32 << i)
    } else {
        v & (!(1u32 << i))
    }
}

pub fn u8_set_field(v: u8, lo: u8, width: u8, x: u8) -> (r: u8)
    requires
        lo < 8,
        1 <= width < 8,
        lo + width <= 8,
        x < (1u8 << width),
    ensures
        r == spec_u8_set_field(v, lo, width, x),
{
    proof {
        assert(1u8 << width >= 1) by (bit_vector)
            requires
                width < 8,
        ;
    }
    (v & (!(((1u8 << width) - 1) << lo))) | (x << lo)
}

pub fn u32_set_field(v: u32, lo: u32, width: u32, x: u32) -> (r: u32)
    requires
        lo < 32,
        1 <= width < 32,
        lo + width <= 32,
        x < (1u32 << width),
    ensures
        r == spec_u32_set_field(v, lo, width, x),
{
    proof {
        assert(1u32 << width >= 1) by (bit_vector)
            requires
                width < 32,
        ;
    }
    (v & (!(((1u32 << width) - 1) << lo))) | (x << lo)
}

/// Setting bit `i` writes that bit and no other.
pub proof fn lemma_u8_set_bit(v: u8, i: u8, b: bool)
    by (bit_vector)
    requires
        i < 8,
    ensures
        u8_bit(spec_u8_set_bit(v, i, b), i) == b,
        forall|j: u8|
            j < 8 && j != i ==> #[trigger] u8_bit(spec_u8_set_bit(v, i, b), j) == u8_bit(v, j),
{
}

/// Setting bit `i` writes that bit and no other.
pub proof fn lemma_u32_set_bit(v: u32, i: u32, b: bool)
    by (bit_vector)
    requires
        i < 32,
    ensures
        u32_bit(spec_u32_set_bit(v, i, b), i) == b,
        forall|j: u32|
            j < 32 && j != i ==> #[trigger] u32_bit(spec_u32_set_bit(v, i, b), j) == u32_bit(v, j),
{
}

/// Replacing a field writes exactly the bits of that field: the field then
/// reads back as the value written, and every bit outside it is unchanged.
pub proof fn lemma_u32_set_field(v: u32, lo: u32, width: u32, x: u32)
    by (bit_vector)
    requires
        lo < 32,
        1 <= width < 32,
        lo + width <= 32,
        x < (1u32 << width),
    ensures
        u32_field(spec_u32_set_field(v, lo, width, x), lo, width) == x,
        forall|j: u32|
            j < 32 && !(lo <= j < lo + width) ==> #[trigger] u32_bit(
                spec_u32_set_field(v, lo, width, x),
                j,
            ) == u32_bit(v, j),
{
}

/// The values of the small powers of two written as shifts, for callers
/// whose field widths are literal: outside the bit-vector solver a shift is
/// otherwise opaque.
pub proof fn lemma_small_shifts()
    by (bit_vector)
    ensures
        1u8 << 1 == 2,
        1u8 << 2 == 4,
        1u8 << 3 == 8,
        1u8 << 4 == 16,
        1u8 << 5 == 32,
        1u8 << 6 == 64,
        1u8 << 7 == 128,
        1u32 << 1 == 2,
        1u32 << 2 == 4,
        1u32 << 3 == 8,
        1u32 << 4 == 16,
        1u32 << 5 == 32,
{
}

/// Flipping bit `i` with an exclusive-or inverts that bit and no other.
pub proof fn lemma_u32_flip_bit(v: u32, i: u32)
    by (bit_vector)
    requires
        i < 32,
    ensures
        u32_bit(v ^ (1u32 << i), i) == !u32_bit(v, i),
        forall|j: u32| j < 32 && j != i ==> #[trigger] u32_bit(v ^ (1u32 << i), j) == u32_bit(v, j),
{
}

} // verus!
