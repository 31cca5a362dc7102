//! The bit-field codec on concrete values: extraction, deposit, truncation,
//! and the round-trip isolation property.

use n64_pac::field::{deposit32, deposit64, extract32, extract64, mask32_exec, mask64_exec};

#[test]
fn extract_low_bits() {
    // 0xA = 0b1010: the 2-bit field at offset 1 holds 0b01.
    assert_eq!(extract32(0xA, 1, 2), 0b01);
    assert_eq!(extract32(0xA, 0, 4), 0xA);
    assert_eq!(extract32(0xA, 3, 1), 1);
    assert_eq!(extract32(0xA, 4, 4), 0);
}

#[test]
fn extract_high_bits() {
    assert_eq!(extract32(0x8000_0000, 31, 1), 1);
    assert_eq!(extract32(0x7FFF_FFFF, 31, 1), 0);
    assert_eq!(extract32(0xDEAD_BEEF, 16, 16), 0xDEAD);
    assert_eq!(extract32(0xDEAD_BEEF, 0, 32), 0xDEAD_BEEF);
}

#[test]
fn deposit_into_zero() {
    assert_eq!(deposit32(0, 1, 2, 0b01), 0b010);
    assert_eq!(deposit32(0, 8, 8, 0xFF), 0xFF00);
    assert_eq!(deposit32(0, 31, 1, 1), 0x8000_0000);
}

#[test]
fn deposit_preserves_other_bits() {
    assert_eq!(deposit32(0xFFFF_FFFF, 8, 8, 0), 0xFFFF_00FF);
    assert_eq!(deposit32(0xAAAA_AAAA, 0, 4, 0x5), 0xAAAA_AAA5);
}

#[test]
fn deposit_truncates_oversized_values() {
    // Excess high bits of an oversized input are silently discarded.
    assert_eq!(deposit32(0, 0, 4, 0xFF), 0xF);
    assert_eq!(deposit32(0, 4, 2, 0b111), 0b11_0000);
}

#[test]
fn deposit_whole_register() {
    assert_eq!(deposit32(0xDEAD_BEEF, 0, 32, 0x1234_5678), 0x1234_5678);
}

#[test]
fn masks() {
    assert_eq!(mask32_exec(0), 0);
    assert_eq!(mask32_exec(1), 1);
    assert_eq!(mask32_exec(8), 0xFF);
    assert_eq!(mask32_exec(32), 0xFFFF_FFFF);
    assert_eq!(mask64_exec(33), 0x1_FFFF_FFFF);
    assert_eq!(mask64_exec(64), 0xFFFF_FFFF_FFFF_FFFF);
}

#[test]
fn round_trip_isolation() {
    // Decoding a field and re-encoding it into a zero register reproduces
    // exactly the field's bits and leaves all other bits zero.
    let samples: [u32; 5] = [0, 0xA, 0xDEAD_BEEF, 0xFFFF_FFFF, 0x8000_0001];
    let fields: [(u32, u32); 5] = [(1, 2), (0, 7), (13, 12), (31, 1), (0, 32)];
    for &raw in samples.iter() {
        for &(offset, width) in fields.iter() {
            let isolated = deposit32(0, offset, width, extract32(raw, offset, width));
            let mask = if width == 32 { u32::MAX } else { ((1u32 << width) - 1) << offset };
            assert_eq!(isolated, raw & mask);
            assert_eq!(isolated & !mask, 0);
        }
    }
}

#[test]
fn codec_64_bit() {
    assert_eq!(extract64(0x1234_5678_9ABC_DEF0, 32, 32), 0x1234_5678);
    assert_eq!(extract64(0x1234_5678_9ABC_DEF0, 0, 64), 0x1234_5678_9ABC_DEF0);
    assert_eq!(extract64(0xFFFF_FFFF_FFFF_FFFF, 62, 2), 0b11);
    assert_eq!(deposit64(0, 62, 2, 0b10), 0x8000_0000_0000_0000);
    assert_eq!(deposit64(0xFFFF_FFFF_FFFF_FFFF, 0, 8, 0), 0xFFFF_FFFF_FFFF_FF00);
    assert_eq!(deposit64(0, 0, 8, 0x1FF), 0xFF);
    let raw: u64 = 0xA5A5_5A5A_0F0F_F0F0;
    let isolated = deposit64(0, 23, 41, extract64(raw, 23, 41));
    assert_eq!(isolated, raw & (((1u64 << 41) - 1) << 23));
}
