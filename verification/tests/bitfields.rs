//! Per-register bit layouts: getters and setters of the remaining bitfield
//! registers against hand-computed raw values.

use n64_pac::ai;
use n64_pac::cp0::{CauseReg, ConfigReg, ContextReg, ExceptionCode, ExceptionPcReg, IndexReg,
    PageMaskReg, PageSize, WatchLoReg};
use n64_pac::cp1::ImplementationRevisionReg;
use n64_pac::mi::{MaskRegRead, ModeRegRead, VersionReg};
use n64_pac::pi::StatusRegRead;
use n64_pac::vi::{BurstReg, HSyncReg, XScaleReg};

#[test]
fn mi_version_fields() {
    let v = VersionReg(0x0403_0201);
    assert_eq!(v.io_version(), 0x01);
    assert_eq!(v.rac_version(), 0x02);
    assert_eq!(v.rdp_version(), 0x03);
    assert_eq!(v.rsp_version(), 0x04);
}

#[test]
fn mi_mode_read_fields() {
    let m = ModeRegRead((1 << 9) | (1 << 7) | 0x55);
    assert_eq!(m.init_length(), 0x55);
    assert!(m.init_mode());
    assert!(!m.ebus_test_mode());
    assert!(m.rdram_register_mode());
}

#[test]
fn mi_mask_read_fields() {
    let m = MaskRegRead(0b10_1010);
    assert!(!m.sp_interrupt_mask());
    assert!(m.si_interrupt_mask());
    assert!(!m.ai_interrupt_mask());
    assert!(m.vi_interrupt_mask());
    assert!(!m.pi_interrupt_mask());
    assert!(m.dp_interrupt_mask());
}

#[test]
fn pi_status_read_fields() {
    let s = StatusRegRead(0b1001);
    assert!(s.dma_busy());
    assert!(!s.io_busy());
    assert!(!s.dma_error());
    assert!(s.interrupt());
}

#[test]
fn ai_status_fields() {
    let raw = (1 << 30) | (1 << 27) | (1 << 25) | (0x1234 << 1) | 1;
    let s = ai::StatusReg(raw);
    assert!(s.full());
    assert_eq!(s.dac_cntr(), 0x1234);
    assert!(s.dma_enable());
    assert!(s.dma_busy());
    assert!(!s.dma_request());
    assert!(s.busy());
    assert!(!s.bitclock_state());
    // The write-only view stores a whole word verbatim.
    assert_eq!(s.with_clear_interrupt(0).0, 0);
    assert_eq!(ai::StatusReg(0).with_clear_interrupt(0xFFFF_FFFF).0, 0xFFFF_FFFF);
}

#[test]
fn vi_burst_fields() {
    let b = BurstReg(0)
        .with_hsync_width(0x39)
        .with_burst_width(0x22)
        .with_vsync_width(0x5)
        .with_burst_start(0x0E2);
    assert_eq!(b.0, 0x39 | (0x22 << 8) | (0x5 << 16) | (0x0E2 << 20));
    assert_eq!(b.hsync_width(), 0x39);
    assert_eq!(b.burst_width(), 0x22);
    assert_eq!(b.vsync_width(), 0x5);
    assert_eq!(b.burst_start(), 0x0E2);
    // A 10-bit field truncates an oversized start value.
    assert_eq!(BurstReg(0).with_burst_start(0xFFFF).burst_start(), 0x3FF);
}

#[test]
fn vi_sync_and_scale_fields() {
    let h = HSyncReg(0).with_h_sync(0x7FF).with_leap(0x15);
    assert_eq!(h.0, 0x7FF | (0x15 << 16));
    assert_eq!(h.h_sync(), 0x7FF);
    assert_eq!(h.leap(), 0x15);
    let x = XScaleReg(0).with_x_scale(0x200).with_x_offset(0x100);
    assert_eq!(x.0, 0x200 | (0x100 << 16));
    assert_eq!(x.x_scale(), 0x200);
    assert_eq!(x.x_offset(), 0x100);
}

#[test]
fn cp0_index_and_pagemask_fields() {
    let i = IndexReg(0).with_index(5).with_probe(true);
    assert_eq!(i.0, 5 | (1 << 31));
    assert_eq!(i.index(), 5);
    assert!(i.probe());
    let p = PageMaskReg(0).with_mask(PageSize::MB1);
    assert_eq!(p.0, 0x0FF << 13);
    assert_eq!(p.mask(), PageSize::MB1);
    // An unmapped comparison mask decodes to the default variant.
    assert_eq!(PageMaskReg(0x001 << 13).mask(), PageSize::Undefined);
}

#[test]
fn cp0_cause_fields() {
    let raw = (8u32 << 2) | (1 << 9) | (1 << 15) | (1u32 << 31);
    let c = CauseReg(raw);
    assert_eq!(c.exception_code(), ExceptionCode::Syscall);
    assert!(!c.ip0());
    assert!(c.ip1());
    assert!(c.ip7());
    assert!(c.branch_delay());
    assert_eq!(c.ce(), 0);
    // The pending software interrupts are the only writable bits.
    assert_eq!(CauseReg(0).with_ip0(true).0, 1 << 8);
}

#[test]
fn cp0_config_and_watch_fields() {
    let cfg = ConfigReg(0).with_be(true).with_ep(0x6);
    assert_eq!(cfg.0, (1 << 15) | (0x6 << 24));
    assert!(cfg.be());
    assert_eq!(cfg.ep(), 0x6);
    let w = WatchLoReg(0).with_w(true).with_paddr0(0x1FFF_FFFF);
    assert_eq!(w.0, 1 | (0x1FFF_FFFF << 3));
    assert!(w.w());
    assert!(!w.r());
    assert_eq!(w.paddr0(), 0x1FFF_FFFF);
}

#[test]
fn cp0_wide_register_fields() {
    let ctx = ContextReg(0).with_bad_vpn2(0x7_FFFF).with_pte_base_u64(0x1_0000_0000);
    assert_eq!(ctx.0, (0x7_FFFFu64 << 4) | (0x1_0000_0000u64 << 23));
    assert_eq!(ctx.bad_vpn2(), 0x7_FFFF);
    assert_eq!(ctx.pte_base_u64(), 0x1_0000_0000);
    // The 32-bit-mode base is the low slice of the same field.
    assert_eq!(ctx.pte_base_u32(), 0);
    let epc = ExceptionPcReg(0).with_epc_u64(0xFFFF_FFFF_8000_0180);
    assert_eq!(epc.epc_u64(), 0xFFFF_FFFF_8000_0180);
    assert_eq!(epc.epc_u32(), 0x8000_0180);
}

#[test]
fn cp1_implementation_revision_fields() {
    let r = ImplementationRevisionReg(0x0B05);
    assert_eq!(r.revision(), 0x05);
    assert_eq!(r.implementation(), 0x0B);
}
