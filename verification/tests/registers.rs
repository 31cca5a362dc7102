//! Register cells, blocks, dual-view registers, the coprocessor register
//! files and the ownership arbiter, exercised over a synthetic register
//! region.

use n64_pac::cp0::{CacheAlgorithm, Cp0, EntryHiReg, EntryLoReg, StatusReg, VAddrRegion};
use n64_pac::cp1::{ControlStatusReg, Cp1, RoundingMode};
use n64_pac::memory::{
    MmioRegion, MI_BASE, MI_INTERRUPT, PI_BASE, SI_BASE, VI_BASE,
};
use n64_pac::mi::{MaskRegWrite, MipsInterface, ModeRegWrite};
use n64_pac::pi::{PeripheralInterface, StatusRegWrite};
use n64_pac::si::SerialInterface;
use n64_pac::vi::{ColorDepth, CtrlReg, VideoInterface};
use n64_pac::{Arbiter, Hardware};

#[test]
fn region_stores_and_loads() {
    let mut mem = MmioRegion::new(0x1000, 4);
    assert_eq!(mem.load(0x1000), 0);
    assert_eq!(mem.load(0x100C), 0);
    mem.store(0x1004, 0xDEAD_BEEF);
    assert_eq!(mem.load(0x1004), 0xDEAD_BEEF);
    // Neighbouring words are untouched.
    assert_eq!(mem.load(0x1000), 0);
    assert_eq!(mem.load(0x1008), 0);
}

#[test]
fn block_write_then_read_back() {
    // End-to-end: a synthetic region at the device base, a block handle on
    // it, a raw write through a cell and the same value read back.
    let mut mem = MmioRegion::new(PI_BASE, 13);
    let pi = PeripheralInterface::new();
    pi.r.dram_addr.write(&mut mem, 0x0040_1234);
    assert_eq!(pi.r.dram_addr.read(&mem), 0x0040_1234);
    pi.r.cart_addr.write(&mut mem, 0x1000_0000);
    assert_eq!(pi.r.cart_addr.read(&mem), 0x1000_0000);
    // The first write still stands: the cells do not alias.
    assert_eq!(pi.r.dram_addr.read(&mem), 0x0040_1234);
}

#[test]
fn field_read_from_raw_register_value() {
    // End-to-end: raw value 0xA (0b1010) lands in a register; the 2-bit
    // field at bits 1..=2 reads back 0b01 (bit 1 set, bit 2 clear), and the
    // whole register still holds 0xA.
    let mut mem = MmioRegion::new(MI_BASE, 4);
    mem.store(MI_INTERRUPT, 0xA);
    let mi = MipsInterface::new();
    let pending = mi.r.interrupt.read(&mem);
    assert!(pending.si()); // bit 1
    assert!(!pending.ai()); // bit 2
    assert!(!pending.sp()); // bit 0
    assert!(pending.vi()); // bit 3
    assert_eq!(mem.load(MI_INTERRUPT), 0xA);
}

#[test]
fn modify_with_identity_leaves_value_unchanged() {
    let mut mem = MmioRegion::new(VI_BASE, 16);
    let vi = VideoInterface::new();
    vi.r.ctrl.write(&mut mem, CtrlReg(0x0001_234A));
    vi.r.ctrl.modify(&mut mem, |v: CtrlReg| v);
    assert_eq!(mem.load(VI_BASE), 0x0001_234A);
    vi.r.origin.write(&mut mem, 0x55AA_55AA);
    vi.r.origin.modify(&mut mem, |v: u32| v);
    assert_eq!(vi.r.origin.read(&mem), 0x55AA_55AA);
}

#[test]
fn modify_applies_the_function() {
    let mut mem = MmioRegion::new(VI_BASE, 16);
    let vi = VideoInterface::new();
    vi.r.ctrl.write(&mut mem, CtrlReg(0));
    vi.r.ctrl.modify(&mut mem, |v: CtrlReg| v.with_depth(ColorDepth::BPP32));
    let ctrl = vi.r.ctrl.read(&mem);
    assert_eq!(ctrl.depth(), ColorDepth::BPP32);
    assert_eq!(ctrl.0, 3);
}

#[test]
fn dual_view_read_shape_depends_only_on_stored_bits() {
    // Write shapes built by different paths but with the same raw bits read
    // back as the same read shape; nothing of the write shape survives.
    let mut mem = MmioRegion::new(MI_BASE, 4);
    let mi = MipsInterface::new();
    let by_method = ModeRegWrite(0).with_init_length(0x12);
    let by_raw = ModeRegWrite(0x12);
    assert_eq!(by_method, by_raw);
    mi.r.mode.write(&mut mem, by_method);
    let first = mi.r.mode.read(&mem);
    mi.r.mode.write(&mut mem, by_raw);
    let second = mi.r.mode.read(&mem);
    assert_eq!(first, second);
    assert_eq!(first.init_length(), 0x12);
    // A set-request bit of the write shape lands on a bit that means
    // something else under the read shape: only the stored bits matter.
    mi.r.mode.write(&mut mem, ModeRegWrite(0).set_init_mode());
    let read = mi.r.mode.read(&mem);
    assert_eq!(mem.load(MI_BASE), 0x100);
    assert!(read.ebus_test_mode()); // bit 8 under the read shape
    assert!(!read.init_mode()); // bit 7 is clear
}

#[test]
fn dual_view_write_discards_previous_bits() {
    let mut mem = MmioRegion::new(MI_BASE, 4);
    let mi = MipsInterface::new();
    mi.r.mode.write(&mut mem, ModeRegWrite(0xFFF));
    mi.r.mode.write(&mut mem, ModeRegWrite(0).clear_dp_interrupt());
    // Only the new write's bits are stored; none of 0xFFF is preserved.
    assert_eq!(mem.load(MI_BASE), 1 << 11);
}

#[test]
fn mode_write_request_bits() {
    let w = ModeRegWrite(0)
        .clear_init_mode()
        .set_ebus_test_mode()
        .clear_rdram_register_mode();
    assert_eq!(w.0, (1 << 7) | (1 << 10) | (1 << 12));
    let w2 = ModeRegWrite(0).set_init_mode().clear_ebus_test_mode().set_rdram_register_mode();
    assert_eq!(w2.0, (1 << 8) | (1 << 9) | (1 << 13));
    assert_eq!(ModeRegWrite(0).clear_dp_interrupt().0, 1 << 11);
    assert_eq!(ModeRegWrite(0).with_init_length(0xFF).0, 0x7F); // truncated to 7 bits
}

#[test]
fn mask_write_request_bits() {
    let w = MaskRegWrite(0).clear_sp_mask().set_si_mask().clear_ai_mask().set_vi_mask();
    assert_eq!(w.0, (1 << 0) | (1 << 3) | (1 << 4) | (1 << 7));
    let w2 = MaskRegWrite(0).set_sp_mask().clear_si_mask().set_ai_mask().clear_vi_mask();
    assert_eq!(w2.0, (1 << 1) | (1 << 2) | (1 << 5) | (1 << 6));
    let w3 = MaskRegWrite(0).clear_pi_mask().set_pi_mask().clear_dp_mask().set_dp_mask();
    assert_eq!(w3.0, (1 << 8) | (1 << 9) | (1 << 10) | (1 << 11));
}

#[test]
fn pi_status_request_bits() {
    assert_eq!(StatusRegWrite(0).clear_interrupt().0, 1);
    assert_eq!(StatusRegWrite(0).reset_dma().0, 2);
    assert_eq!(StatusRegWrite(0).clear_interrupt().reset_dma().0, 3);
}

#[test]
fn si_status_fields() {
    let mut mem = MmioRegion::new(SI_BASE, 7);
    let si = SerialInterface::new();
    mem.store(SI_BASE + 0x18, (1 << 12) | (0x5 << 8) | (0x9 << 4) | 0b1010);
    let status = si.r.status.read(&mem);
    assert!(status.interrupt());
    assert_eq!(status.dma_state(), 0x5);
    assert_eq!(status.pch_state(), 0x9);
    assert!(!status.dma_busy());
    assert!(status.io_busy());
    assert!(!status.read_pending());
    assert!(status.dma_error());
    // Writing any value through the whole-register field stores it verbatim.
    si.r.status.write(&mut mem, status.with_whole_register(0));
    assert_eq!(mem.load(SI_BASE + 0x18), 0);
}

#[test]
fn arbiter_grants_one_handle() {
    // Two takes in sequence: a handle, then the signalled absence.
    let mut arb = Arbiter::new();
    let first = Hardware::take(&mut arb);
    assert!(first.is_some());
    let second = Hardware::take(&mut arb);
    assert!(second.is_none());
    // The bypass yields a handle regardless of prior state.
    let _stolen = Hardware::steal(&mut arb);
    // A take after a bare steal still sees the claimed state.
    let mut arb2 = Arbiter::new();
    let _stolen_first = Hardware::steal(&mut arb2);
    assert!(Hardware::take(&mut arb2).is_none());
}

#[test]
fn cp0_wide_transfers_round_trip() {
    let mut cp0 = Cp0::new();
    cp0.write_u64::<10>(0x1234_5678_9ABC_DEF0);
    assert_eq!(cp0.read_u64::<10>(), 0x1234_5678_9ABC_DEF0);
    // The narrow read sees the low word.
    assert_eq!(cp0.read_u32::<10>(), 0x9ABC_DEF0);
    // A narrow write replaces the whole stored register.
    cp0.write_u32::<10>(0x0000_1357);
    assert_eq!(cp0.read_u64::<10>(), 0x0000_1357);
    // Other registers stay zero.
    assert_eq!(cp0.read_u64::<11>(), 0);
}

#[test]
fn cp0_modify_reads_then_writes() {
    let mut cp0 = Cp0::new();
    cp0.write_u32::<9>(40);
    cp0.modify_u32::<9, _>(|v: u32| v + 2);
    assert_eq!(cp0.read_u32::<9>(), 42);
    cp0.modify_u64::<9, _>(|v: u64| v);
    assert_eq!(cp0.read_u64::<9>(), 42);
}

#[test]
fn cp0_typed_registers() {
    let mut cp0 = Cp0::new();
    let status = StatusReg(0).with_ie(true).with_im_timer(true).with_ksu(2);
    assert_eq!(status.0, 1 | (1 << 15) | (2 << 3));
    cp0.set_status(status);
    let back = cp0.status();
    assert!(back.ie());
    assert!(back.im_timer());
    assert_eq!(back.ksu(), 2);
    assert_eq!(back.im(), 0x80);
    assert!(!back.exl());

    let lo = EntryLoReg(0)
        .with_valid(true)
        .with_cache_algorithm(CacheAlgorithm::Uncached)
        .with_page_frame_number(0x0012_3456);
    cp0.set_entrylo0(lo);
    let lo_back = cp0.entrylo0();
    assert!(lo_back.valid());
    assert_eq!(lo_back.cache_algorithm(), CacheAlgorithm::Uncached);
    assert_eq!(lo_back.page_frame_number(), 0x0012_3456);

    let hi = EntryHiReg(0).with_asid(0x42).with_region(VAddrRegion::Kernel);
    cp0.set_entryhi(hi);
    let hi_back = cp0.entryhi();
    assert_eq!(hi_back.asid(), 0x42);
    assert_eq!(hi_back.region(), VAddrRegion::Kernel);
    assert_eq!(hi.0 >> 62, 3);

    cp0.set_count(123);
    cp0.set_compare(456);
    assert_eq!(cp0.count(), 123);
    assert_eq!(cp0.compare(), 456);
}

#[test]
fn cp1_control_registers() {
    let mut cp1 = Cp1::new();
    let cs = ControlStatusReg(0).with_rm(RoundingMode::Rz).with_fs(true).with_enable_overflow(
        true,
    );
    assert_eq!(cs.0, 1 | (1 << 24) | (1 << 9));
    cp1.set_control_status(cs);
    let back = cp1.control_status();
    assert_eq!(back.rm(), RoundingMode::Rz);
    assert!(back.fs());
    assert!(back.enable_overflow());
    assert!(!back.c());
    // The typed control-status access goes through the data-register
    // transfer path, as the hardware instructions do.
    assert_eq!(cp1.read_u32::<31>(), cs.0);
    // The separate control-register file moves whole words and is untouched
    // by the data-register write.
    assert_eq!(cp1.read_fcr::<31>(), 0);
    cp1.write_fcr::<31>(0x0003_FFFF);
    assert_eq!(cp1.read_fcr::<31>(), 0x0003_FFFF);
    assert_eq!(cp1.read_fcr::<0>(), 0);
    assert_eq!(cp1.read_u32::<31>(), cs.0);
    cp1.write_u64::<2>(0xFFFF_FFFF_0000_0001);
    assert_eq!(cp1.read_u64::<2>(), 0xFFFF_FFFF_0000_0001);
    assert_eq!(cp1.read_u32::<2>(), 1);
}

#[test]
fn hardware_bundles_every_device() {
    let mut arb = Arbiter::new();
    let mut hw = Hardware::take(&mut arb).unwrap();
    hw.cp0.set_count(7);
    assert_eq!(hw.cp0.count(), 7);
    let mut vi_mem = MmioRegion::new(VI_BASE, 16);
    hw.vi.r.width.write(&mut vi_mem, 320);
    assert_eq!(hw.vi.r.width.read(&vi_mem), 320);
    let mut ai_mem = MmioRegion::new(n64_pac::memory::AI_BASE, 6);
    hw.ai.r.dac_rate.write(&mut ai_mem, 0x3FFF);
    assert_eq!(ai_mem.load(n64_pac::memory::AI_BASE + 0x10), 0x3FFF);
}

#[test]
fn vi_ctrl_fields() {
    let ctrl = CtrlReg(0)
        .with_depth(ColorDepth::BPP16)
        .with_gamma_enable(true)
        .with_pixel_advance(0xF)
        .with_dither_filter_enable(true);
    assert_eq!(ctrl.0, 2 | (1 << 3) | (0xF << 12) | (1 << 16));
    assert_eq!(ctrl.depth(), ColorDepth::BPP16);
    assert!(ctrl.gamma_enable());
    assert!(!ctrl.serrate());
    assert_eq!(ctrl.pixel_advance(), 0xF);
    // Oversized input to a 4-bit field is truncated.
    assert_eq!(CtrlReg(0).with_pixel_advance(0xFF).pixel_advance(), 0xF);
}
