//! Enumerated fields: decoding is total, unmapped bit patterns fall to the
//! designated default variant, and every defined variant round-trips.

use n64_pac::cp0::{CacheAlgorithm, ExceptionCode, PageSize, VAddrRegion};
use n64_pac::cp1::RoundingMode;
use n64_pac::vi::{AntiAliasMode, ColorDepth};

#[test]
fn color_depth_encodings() {
    assert_eq!(ColorDepth::from_bits(0), ColorDepth::Blank);
    assert_eq!(ColorDepth::from_bits(1), ColorDepth::Reserved);
    assert_eq!(ColorDepth::from_bits(2), ColorDepth::BPP16);
    assert_eq!(ColorDepth::from_bits(3), ColorDepth::BPP32);
    assert_eq!(ColorDepth::BPP32.to_bits(), 3);
    assert_eq!(ColorDepth::Blank.to_bits(), 0);
}

#[test]
fn color_depth_round_trip() {
    for v in [ColorDepth::BPP32, ColorDepth::BPP16, ColorDepth::Reserved, ColorDepth::Blank] {
        assert_eq!(ColorDepth::from_bits(v.to_bits()), v);
    }
}

#[test]
fn anti_alias_mode_round_trip() {
    for v in [
        AntiAliasMode::Disabled,
        AntiAliasMode::ResamplingOnly,
        AntiAliasMode::EnabledAsNeeded,
        AntiAliasMode::Enabled,
    ] {
        assert_eq!(AntiAliasMode::from_bits(v.to_bits()), v);
    }
    assert_eq!(AntiAliasMode::Disabled.to_bits(), 3);
    assert_eq!(AntiAliasMode::Enabled.to_bits(), 0);
}

#[test]
fn cache_algorithm_unmapped_patterns_fall_to_default() {
    // Mapped: 2 (uncached) and 3 (cached); everything else decodes to the
    // default variant, never to a failure.
    assert_eq!(CacheAlgorithm::from_bits(2), CacheAlgorithm::Uncached);
    assert_eq!(CacheAlgorithm::from_bits(3), CacheAlgorithm::Cached);
    assert_eq!(CacheAlgorithm::from_bits(0), CacheAlgorithm::Cached);
    assert_eq!(CacheAlgorithm::from_bits(1), CacheAlgorithm::Cached);
    assert_eq!(CacheAlgorithm::from_bits(7), CacheAlgorithm::Cached);
}

#[test]
fn cache_algorithm_round_trip() {
    for v in [CacheAlgorithm::Uncached, CacheAlgorithm::Cached] {
        assert_eq!(CacheAlgorithm::from_bits(v.to_bits()), v);
    }
}

#[test]
fn page_size_round_trip_and_default() {
    for v in [
        PageSize::KB4,
        PageSize::KB16,
        PageSize::KB64,
        PageSize::KB256,
        PageSize::MB1,
        PageSize::MB4,
        PageSize::MB16,
        PageSize::Undefined,
    ] {
        assert_eq!(PageSize::from_bits(v.to_bits()), v);
    }
    assert_eq!(PageSize::from_bits(2), PageSize::Undefined);
    assert_eq!(PageSize::from_bits(0x7FF), PageSize::Undefined);
    assert_eq!(PageSize::from_bits(0x3FF), PageSize::MB4);
}

#[test]
fn vaddr_region_round_trip() {
    for v in [
        VAddrRegion::User,
        VAddrRegion::Supervisor,
        VAddrRegion::Unknown,
        VAddrRegion::Kernel,
    ] {
        assert_eq!(VAddrRegion::from_bits(v.to_bits()), v);
    }
    assert_eq!(VAddrRegion::from_bits(200), VAddrRegion::Unknown);
}

#[test]
fn exception_code_round_trip() {
    for v in [
        ExceptionCode::Interrupt,
        ExceptionCode::TlbModification,
        ExceptionCode::TlbMissOnLoad,
        ExceptionCode::TlbMissOnStore,
        ExceptionCode::AddressErrorOnLoad,
        ExceptionCode::AddressErrorOnStore,
        ExceptionCode::InstructionBusError,
        ExceptionCode::DataBusError,
        ExceptionCode::Syscall,
        ExceptionCode::Breakpoint,
        ExceptionCode::ReservedInstruction,
        ExceptionCode::CoprocessorUnusable,
        ExceptionCode::ArithmeticOverflow,
        ExceptionCode::Trap,
        ExceptionCode::FloatingPoint,
        ExceptionCode::Watch,
        ExceptionCode::Reserved,
    ] {
        assert_eq!(ExceptionCode::from_bits(v.to_bits()), v);
    }
    // The reserved encodings around the mapped ones fall to the default.
    assert_eq!(ExceptionCode::from_bits(14), ExceptionCode::Reserved);
    assert_eq!(ExceptionCode::from_bits(16), ExceptionCode::Reserved);
    assert_eq!(ExceptionCode::from_bits(31), ExceptionCode::Reserved);
}

#[test]
fn rounding_mode_round_trip() {
    for v in [RoundingMode::Rn, RoundingMode::Rz, RoundingMode::Rp, RoundingMode::Rm] {
        assert_eq!(RoundingMode::from_bits(v.to_bits()), v);
    }
    assert_eq!(RoundingMode::from_bits(0), RoundingMode::Rn);
    assert_eq!(RoundingMode::from_bits(9), RoundingMode::Rn);
}

#[test]
fn decoding_is_total_over_all_byte_patterns() {
    // No bit pattern makes any 8-bit decode fail.
    let mut i: u32 = 0;
    while i <= 0xFF {
        let b = i as u8;
        let _ = ColorDepth::from_bits(b);
        let _ = AntiAliasMode::from_bits(b);
        let _ = CacheAlgorithm::from_bits(b);
        let _ = VAddrRegion::from_bits(b);
        let _ = ExceptionCode::from_bits(b);
        let _ = RoundingMode::from_bits(b);
        i += 1;
    }
    let mut j: u32 = 0;
    while j <= 0xFFFF {
        let _ = PageSize::from_bits(j as u16);
        j += 1;
    }
}
