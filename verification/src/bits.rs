//! Arithmetic facts shared by the register and wire-message codecs.
//!
//! Every packed value in this crate is laid out least-significant field
//! first, so a raw integer always has the shape `lo + weight * hi` with
//! `lo < weight`.  The lemmas here let each codec peel one field at a time
//! off that shape.

use vstd::arithmetic::div_mod::lemma_fundamental_div_mod_converse;
use vstd::arithmetic::mul::lemma_mul_is_commutative;
use vstd::prelude::*;

verus! {

/// Numeric value of a single bit.
pub open spec fn b2i(b: bool) -> int {
    if b {
        1
    } else {
        0
    }
}

/// Little-endian byte sequence of a 16-bit value.
pub open spec fn le16_bytes(v: u16) -> Seq<u8> {
    seq![(v % 256) as u8, (v / 256) as u8]
}

/// Little-endian byte sequence of a 32-bit value.
pub open spec fn le32_bytes(v: u32) -> Seq<u8> {
    seq![
        (v % 256) as u8,
        ((v / 256) % 256) as u8,
        ((v / 65536) % 256) as u8,
        (v / 16777216) as u8,
    ]
}

/// The 16-bit value read back from two little-endian bytes.
pub open spec fn le16_value(b0: u8, b1: u8) -> u16 {
    (b0 + 256 * b1) as u16
}

/// The 32-bit value read back from four little-endian bytes.
pub open spec fn le32_value(b0: u8, b1: u8, b2: u8, b3: u8) -> u32 {
    (b0 + 256 * b1 + 65536 * b2 + 16777216 * b3) as u32
}

/// Peeling a packed integer: if the low part is below the field weight,
/// division and remainder by the weight recover the two parts exactly.
pub proof fn lemma_field_split(lo: int, hi: int, weight: int)
    requires
        0 < weight,
        0 <= lo < weight,
        0 <= hi,
    ensures
        (lo + weight * hi) % weight == lo,
        (lo + weight * hi) / weight == hi,
{
    lemma_mul_is_commutative(weight, hi);
    lemma_fundamental_div_mod_converse(lo + weight * hi, weight, hi, lo);
}

/// Splitting a byte into its eight bits: remainder and division by powers of
/// two recover each bit of the packed sum.
pub proof fn lemma_u8_bit_split(
    b0: int,
    b1: int,
    b2: int,
    b3: int,
    b4: int,
    b5: int,
    b6: int,
    b7: int,
)
    requires
        0 <= b0 < 2,
        0 <= b1 < 2,
        0 <= b2 < 2,
        0 <= b3 < 2,
        0 <= b4 < 2,
        0 <= b5 < 2,
        0 <= b6 < 2,
        0 <= b7 < 2,
    ensures
        ({
            let raw = b0 + 2 * b1 + 4 * b2 + 8 * b3 + 16 * b4 + 32 * b5 + 64 * b6 + 128 * b7;
            &&& raw < 256
            &&& raw % 2 == b0
            &&& (raw / 2) % 2 == b1
            &&& (raw / 4) % 2 == b2
            &&& (raw / 8) % 2 == b3
            &&& (raw / 16) % 2 == b4
            &&& (raw / 32) % 2 == b5
            &&& (raw / 64) % 2 == b6
            &&& raw / 128 == b7
        }),
{
    let raw = b0 + 2 * b1 + 4 * b2 + 8 * b3 + 16 * b4 + 32 * b5 + 64 * b6 + 128 * b7;
    lemma_field_split(b0, b1 + 2 * b2 + 4 * b3 + 8 * b4 + 16 * b5 + 32 * b6 + 64 * b7, 2);
    lemma_field_split(b0 + 2 * b1, b2 + 2 * b3 + 4 * b4 + 8 * b5 + 16 * b6 + 32 * b7, 4);
    lemma_field_split(b0 + 2 * b1 + 4 * b2, b3 + 2 * b4 + 4 * b5 + 8 * b6 + 16 * b7, 8);
    lemma_field_split(b0 + 2 * b1 + 4 * b2 + 8 * b3, b4 + 2 * b5 + 4 * b6 + 8 * b7, 16);
    lemma_field_split(b0 + 2 * b1 + 4 * b2 + 8 * b3 + 16 * b4, b5 + 2 * b6 + 4 * b7, 32);
    lemma_field_split(b0 + 2 * b1 + 4 * b2 + 8 * b3 + 16 * b4 + 32 * b5, b6 + 2 * b7, 64);
    lemma_field_split(b0 + 2 * b1 + 4 * b2 + 8 * b3 + 16 * b4 + 32 * b5 + 64 * b6, b7, 128);
    lemma_field_split(b1, b2 + 2 * b3 + 4 * b4 + 8 * b5 + 16 * b6 + 32 * b7, 2);
    lemma_field_split(b2, b3 + 2 * b4 + 4 * b5 + 8 * b6 + 16 * b7, 2);
    lemma_field_split(b3, b4 + 2 * b5 + 4 * b6 + 8 * b7, 2);
    lemma_field_split(b4, b5 + 2 * b6 + 4 * b7, 2);
    lemma_field_split(b5, b6 + 2 * b7, 2);
    lemma_field_split(b6, b7, 2);
}

/// Round trip of the little-endian encoding of a 16-bit value.
pub proof fn lemma_le16_roundtrip(v: u16)
    ensures
        le16_value((v % 256) as u8, (v / 256) as u8) == v,
{
    lemma_field_split(v as int % 256, v as int / 256, 256);
    vstd::arithmetic::div_mod::lemma_fundamental_div_mod(v as int, 256);
}

/// Round trip of the little-endian encoding of a 32-bit value.
pub proof fn lemma_le32_roundtrip(v: u32)
    ensures
        le32_value(
            (v % 256) as u8,
            ((v / 256) % 256) as u8,
            ((v / 65536) % 256) as u8,
            (v / 16777216) as u8,
        ) == v,
{
    let x = v as int;
    vstd::arithmetic::div_mod::lemma_fundamental_div_mod(x, 256);
    vstd::arithmetic::div_mod::lemma_fundamental_div_mod(x / 256, 256);
    vstd::arithmetic::div_mod::lemma_fundamental_div_mod(x / 65536, 256);
    assert(x / 256 / 256 == x / 65536) by {
        vstd::arithmetic::div_mod::lemma_div_denominator(x, 256, 256);
    }
    assert(x / 65536 / 256 == x / 16777216) by {
        vstd::arithmetic::div_mod::lemma_div_denominator(x, 65536, 256);
    }
    assert(x / 16777216 < 256);
}

} // verus!
