//! Bit-field codec: every register of the chip is a fixed-width unsigned
//! integer whose named fields are contiguous bit ranges. This module is the
//! single place where a field is cut out of a raw value or deposited into one.
//!
//! A field is described by its bit `offset` and its bit `width`. Extraction is
//! total; deposit truncates an oversized value to the field's width, matching
//! the way hardware registers discard high bits.

use vstd::prelude::*;

verus! {

/// A boolean as a one-bit field value.
pub open spec fn bit_of(b: bool) -> u32 {
    if b {
        1
    } else {
        0
    }
}

/// Mask with the low `width` bits set, for widths up to 32.
pub open spec fn mask32(width: u32) -> u32
    recommends
        width <= 32,
{
    (((1u64 << width) - 1) as u32)
}

/// The `width`-bit field of `raw` starting at bit `offset`.
pub open spec fn field_get32(raw: u32, offset: u32, width: u32) -> u32
    recommends
        1 <= width,
        offset + width <= 32,
{
    (raw >> offset) & mask32(width)
}

/// `raw` with the `width`-bit field at `offset` replaced by the low `width`
/// bits of `value`; every bit outside the field keeps its old value.
pub open spec fn field_set32(raw: u32, offset: u32, width: u32, value: u32) -> u32
    recommends
        1 <= width,
        offset + width <= 32,
{
    (raw & !(mask32(width) << offset)) | ((value & mask32(width)) << offset)
}

proof fn lemma_mask32_exec_form(width: u32)
    by (bit_vector)
    requires
        width < 32,
    ensures
        1u32 << width >= 1,
        ((1u32 << width) - 1) as u32 == mask32(width),
{
}

proof fn lemma_mask32_full()
    by (bit_vector)
    ensures
        mask32(32) == 0xFFFF_FFFFu32,
{
}

/// The mask with the low `width` bits set.
pub fn mask32_exec(width: u32) -> (m: u32)
    requires
        width <= 32,
    ensures
        m == mask32(width),
{
    if width == 32 {
        proof {
            lemma_mask32_full();
        }
        0xFFFF_FFFFu32
    } else {
        proof {
            lemma_mask32_exec_form(width);
        }
        (1u32 << width) - 1
    }
}

/// Extracts the `width`-bit field of `raw` starting at bit `offset`.
pub fn extract32(raw: u32, offset: u32, width: u32) -> (r: u32)
    requires
        1 <= width,
        offset + width <= 32,
    ensures
        r == field_get32(raw, offset, width),
{
    let m = mask32_exec(width);
    (raw >> offset) & m
}

/// Deposits the low `width` bits of `value` into the field of `raw` at bit
/// `offset`, preserving every other bit.
pub fn deposit32(raw: u32, offset: u32, width: u32, value: u32) -> (r: u32)
    requires
        1 <= width,
        offset + width <= 32,
    ensures
        r == field_set32(raw, offset, width, value),
{
    let m = mask32_exec(width);
    (raw & !(m << offset)) | ((value & m) << offset)
}

/// A field of at most 8 bits fits in a byte.
pub proof fn lemma_get32_fits_u8(raw: u32, offset: u32, width: u32)
    by (bit_vector)
    requires
        1 <= width,
        width <= 8,
        offset + width <= 32,
    ensures
        field_get32(raw, offset, width) < 0x100,
{
}

/// A field of at most 16 bits fits in sixteen bits.
pub proof fn lemma_get32_fits_u16(raw: u32, offset: u32, width: u32)
    by (bit_vector)
    requires
        1 <= width,
        width <= 16,
        offset + width <= 32,
    ensures
        field_get32(raw, offset, width) < 0x1_0000,
{
}

/// Round-trip isolation: decoding a field from `raw` and re-encoding it into
/// an all-zero register reproduces exactly the bits of `raw` in the range
/// `[offset, offset + width)` and leaves every other bit zero.
pub proof fn lemma_round_trip_isolation32(raw: u32, offset: u32, width: u32)
    by (bit_vector)
    requires
        1 <= width,
        offset + width <= 32,
    ensures
        field_set32(0, offset, width, field_get32(raw, offset, width)) == raw & (mask32(width)
            << offset),
        field_set32(0, offset, width, field_get32(raw, offset, width)) & !(mask32(width) << offset)
            == 0,
{
}

/// Reading a field back after depositing `value` yields `value` truncated to
/// the field's width.
pub proof fn lemma_set_then_get32(raw: u32, offset: u32, width: u32, value: u32)
    by (bit_vector)
    requires
        1 <= width,
        offset + width <= 32,
    ensures
        field_get32(field_set32(raw, offset, width, value), offset, width) == value & mask32(
            width,
        ),
{
}

/// Depositing into one field leaves every field of a disjoint bit range
/// unchanged.
pub proof fn lemma_set32_preserves_disjoint(
    raw: u32,
    offset: u32,
    width: u32,
    value: u32,
    offset2: u32,
    width2: u32,
)
    by (bit_vector)
    requires
        1 <= width,
        offset + width <= 32,
        1 <= width2,
        offset2 + width2 <= 32,
        offset + width <= offset2 || offset2 + width2 <= offset,
    ensures
        field_get32(field_set32(raw, offset, width, value), offset2, width2) == field_get32(
            raw,
            offset2,
            width2,
        ),
{
}

/// Mask with the low `width` bits set, for widths up to 64.
pub open spec fn mask64(width: u64) -> u64
    recommends
        width <= 64,
{
    if width == 64 {
        0xFFFF_FFFF_FFFF_FFFFu64
    } else {
        (((1u64 << width) - 1) as u64)
    }
}

/// The `width`-bit field of `raw` starting at bit `offset`.
pub open spec fn field_get64(raw: u64, offset: u64, width: u64) -> u64
    recommends
        1 <= width,
        offset + width <= 64,
{
    (raw >> offset) & mask64(width)
}

/// `raw` with the `width`-bit field at `offset` replaced by the low `width`
/// bits of `value`; every bit outside the field keeps its old value.
pub open spec fn field_set64(raw: u64, offset: u64, width: u64, value: u64) -> u64
    recommends
        1 <= width,
        offset + width <= 64,
{
    (raw & !(mask64(width) << offset)) | ((value & mask64(width)) << offset)
}

proof fn lemma_mask64_exec_form(width: u64)
    by (bit_vector)
    requires
        width < 64,
    ensures
        1u64 << width >= 1,
        ((1u64 << width) - 1) as u64 == mask64(width),
{
}

/// The mask with the low `width` bits set.
pub fn mask64_exec(width: u64) -> (m: u64)
    requires
        width <= 64,
    ensures
        m == mask64(width),
{
    if width == 64 {
        0xFFFF_FFFF_FFFF_FFFFu64
    } else {
        proof {
            lemma_mask64_exec_form(width);
        }
        (1u64 << width) - 1
    }
}

/// Extracts the `width`-bit field of `raw` starting at bit `offset`.
pub fn extract64(raw: u64, offset: u64, width: u64) -> (r: u64)
    requires
        1 <= width,
        offset + width <= 64,
    ensures
        r == field_get64(raw, offset, width),
{
    let m = mask64_exec(width);
    (raw >> offset) & m
}

/// Deposits the low `width` bits of `value` into the field of `raw` at bit
/// `offset`, preserving every other bit.
pub fn deposit64(raw: u64, offset: u64, width: u64, value: u64) -> (r: u64)
    requires
        1 <= width,
        offset + width <= 64,
    ensures
        r == field_set64(raw, offset, width, value),
{
    let m = mask64_exec(width);
    (raw & !(m << offset)) | ((value & m) << offset)
}

/// A field of at most 8 bits fits in a byte.
pub proof fn lemma_get64_fits_u8(raw: u64, offset: u64, width: u64)
    by (bit_vector)
    requires
        1 <= width,
        width <= 8,
        offset + width <= 64,
    ensures
        field_get64(raw, offset, width) < 0x100,
{
}

/// A field of at most 16 bits fits in sixteen bits.
pub proof fn lemma_get64_fits_u16(raw: u64, offset: u64, width: u64)
    by (bit_vector)
    requires
        1 <= width,
        width <= 16,
        offset + width <= 64,
    ensures
        field_get64(raw, offset, width) < 0x1_0000,
{
}

/// A field of at most 32 bits fits in one word.
pub proof fn lemma_get64_fits_u32(raw: u64, offset: u64, width: u64)
    by (bit_vector)
    requires
        1 <= width,
        width <= 32,
        offset + width <= 64,
    ensures
        field_get64(raw, offset, width) < 0x1_0000_0000,
{
}

/// Round-trip isolation: decoding a field from `raw` and re-encoding it into
/// an all-zero register reproduces exactly the bits of `raw` in the range
/// `[offset, offset + width)` and leaves every other bit zero.
pub proof fn lemma_round_trip_isolation64(raw: u64, offset: u64, width: u64)
    by (bit_vector)
    requires
        1 <= width,
        offset + width <= 64,
    ensures
        field_set64(0, offset, width, field_get64(raw, offset, width)) == raw & (mask64(width)
            << offset),
        field_set64(0, offset, width, field_get64(raw, offset, width)) & !(mask64(width) << offset)
            == 0,
{
}

/// Reading a field back after depositing `value` yields `value` truncated to
/// the field's width.
pub proof fn lemma_set_then_get64(raw: u64, offset: u64, width: u64, value: u64)
    by (bit_vector)
    requires
        1 <= width,
        offset + width <= 64,
    ensures
        field_get64(field_set64(raw, offset, width, value), offset, width) == value & mask64(
            width,
        ),
{
}

/// Depositing into one field leaves every field of a disjoint bit range
/// unchanged.
pub proof fn lemma_set64_preserves_disjoint(
    raw: u64,
    offset: u64,
    width: u64,
    value: u64,
    offset2: u64,
    width2: u64,
)
    by (bit_vector)
    requires
        1 <= width,
        offset + width <= 64,
        1 <= width2,
        offset2 + width2 <= 64,
        offset + width <= offset2 || offset2 + width2 <= offset,
    ensures
        field_get64(field_set64(raw, offset, width, value), offset2, width2) == field_get64(
            raw,
            offset2,
            width2,
        ),
{
}

/// A 64-bit value equals its high word shifted back up, combined with its
/// low word: splitting into two 32-bit halves and recombining them is
/// lossless.
pub proof fn lemma_u64_halves(v: u64)
    by (bit_vector)
    ensures
        ((((v >> 32) as u32) as u64) << 32) | ((v as u32) as u64) == v,
{
}

} // verus!
