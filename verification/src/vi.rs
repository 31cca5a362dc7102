//! RCP - Video Interface.

use vstd::prelude::*;

use crate::field::{bit_of, extract32, deposit32, field_get32, field_set32, lemma_get32_fits_u8, lemma_get32_fits_u16};
use crate::{RW, RegValue};
use crate::memory::{VI_BASE, VI_BURST, VI_CTRL, VI_H_SYNC, VI_H_SYNC_LEAP, VI_H_VIDEO, VI_ORIGIN, VI_STAGED_DATA, VI_TEST_ADDR, VI_V_BURST, VI_V_CURRENT, VI_V_INTR, VI_V_SYNC, VI_V_VIDEO, VI_WIDTH, VI_X_SCALE, VI_Y_SCALE};

verus! {

/// The device's registers, each at its fixed byte offset from the base
/// address. Discarding the block never releases or resets hardware state;
/// it only ends the software reference.
pub struct RegisterBlock {
    pub ctrl: RW<CtrlReg>,
    pub origin: RW<u32>,
    pub width: RW<u32>,
    pub v_intr: RW<u32>,
    pub v_current: RW<u32>,
    pub burst: RW<BurstReg>,
    pub v_sync: RW<u32>,
    pub h_sync: RW<HSyncReg>,
    pub h_sync_leap: RW<HSyncLeapReg>,
    pub h_video: RW<HVideoReg>,
    pub v_video: RW<VVideoReg>,
    pub v_burst: RW<VBurstReg>,
    pub x_scale: RW<XScaleReg>,
    pub y_scale: RW<YScaleReg>,
    pub test_addr: RW<u32>,
    pub staged_data: RW<u32>,
}

impl RegisterBlock {
    /// Every cell sits at its documented address.
    pub open spec fn wf(self) -> bool {
        &&& self.ctrl.addr() == VI_CTRL
        &&& self.origin.addr() == VI_ORIGIN
        &&& self.width.addr() == VI_WIDTH
        &&& self.v_intr.addr() == VI_V_INTR
        &&& self.v_current.addr() == VI_V_CURRENT
        &&& self.burst.addr() == VI_BURST
        &&& self.v_sync.addr() == VI_V_SYNC
        &&& self.h_sync.addr() == VI_H_SYNC
        &&& self.h_sync_leap.addr() == VI_H_SYNC_LEAP
        &&& self.h_video.addr() == VI_H_VIDEO
        &&& self.v_video.addr() == VI_V_VIDEO
        &&& self.v_burst.addr() == VI_V_BURST
        &&& self.x_scale.addr() == VI_X_SCALE
        &&& self.y_scale.addr() == VI_Y_SCALE
        &&& self.test_addr.addr() == VI_TEST_ADDR
        &&& self.staged_data.addr() == VI_STAGED_DATA
    }

    /// The block's fixed layout at the device's base address.
    pub fn new() -> (r: RegisterBlock)
        ensures
            r.wf(),
    {
        RegisterBlock {
            ctrl: RW::at(VI_CTRL),
            origin: RW::at(VI_ORIGIN),
            width: RW::at(VI_WIDTH),
            v_intr: RW::at(VI_V_INTR),
            v_current: RW::at(VI_V_CURRENT),
            burst: RW::at(VI_BURST),
            v_sync: RW::at(VI_V_SYNC),
            h_sync: RW::at(VI_H_SYNC),
            h_sync_leap: RW::at(VI_H_SYNC_LEAP),
            h_video: RW::at(VI_H_VIDEO),
            v_video: RW::at(VI_V_VIDEO),
            v_burst: RW::at(VI_V_BURST),
            x_scale: RW::at(VI_X_SCALE),
            y_scale: RW::at(VI_Y_SCALE),
            test_addr: RW::at(VI_TEST_ADDR),
            staged_data: RW::at(VI_STAGED_DATA),
        }
    }
}

/// A handle on the Video Interface's memory-mapped registers.
///
/// The handle itself touches no memory: every read or write names the
/// register region it acts on, and demands that the region contain the
/// cell's address.
pub struct VideoInterface {
    pub r: RegisterBlock,
}

impl VideoInterface {
    /// A handle on the device's register block at `VI_BASE`.
    pub fn new() -> (s: Self)
        ensures
            s.r.wf(),
    {
        VideoInterface { r: RegisterBlock::new() }
    }
}

/// Anti-aliasing modes of the `VI_CTRL` register's `aa_mode` field.
#[derive(Clone, Copy, PartialEq, Eq, Structural, Debug)]
pub enum AntiAliasMode {
    Disabled,
    ResamplingOnly,
    EnabledAsNeeded,
    Enabled,
}

impl AntiAliasMode {
    /// The encoding of this variant.
    pub open spec fn bits(self) -> u8 {
        match self {
            AntiAliasMode::Disabled => 3,
            AntiAliasMode::ResamplingOnly => 2,
            AntiAliasMode::EnabledAsNeeded => 1,
            AntiAliasMode::Enabled => 0,
        }
    }

    /// The variant a raw bit pattern decodes to. Decoding is total:
    /// every unmapped pattern decodes to `AntiAliasMode::Enabled`, since the
    /// hardware may present encodings outside the documented set.
    pub open spec fn of_bits(bits: u8) -> AntiAliasMode {
        if bits == 3 {
            AntiAliasMode::Disabled
        } else if bits == 2 {
            AntiAliasMode::ResamplingOnly
        } else if bits == 1 {
            AntiAliasMode::EnabledAsNeeded
        } else {
            AntiAliasMode::Enabled
        }
    }

    pub fn to_bits(self) -> (r: u8)
        ensures
            r == self.bits(),
    {
        match self {
            AntiAliasMode::Disabled => 3,
            AntiAliasMode::ResamplingOnly => 2,
            AntiAliasMode::EnabledAsNeeded => 1,
            AntiAliasMode::Enabled => 0,
        }
    }

    pub fn from_bits(bits: u8) -> (r: AntiAliasMode)
        ensures
            r == AntiAliasMode::of_bits(bits),
    {
        if bits == 3 {
            AntiAliasMode::Disabled
        } else if bits == 2 {
            AntiAliasMode::ResamplingOnly
        } else if bits == 1 {
            AntiAliasMode::EnabledAsNeeded
        } else {
            AntiAliasMode::Enabled
        }
    }
}

/// Law: encoding any defined variant and decoding the result returns the
/// same variant.
pub proof fn lemma_anti_alias_mode_round_trip(v: AntiAliasMode)
    ensures
        AntiAliasMode::of_bits(v.bits()) == v,
{
}

/// Framebuffer color depths of the `VI_CTRL` register's `depth` field.
#[derive(Clone, Copy, PartialEq, Eq, Structural, Debug)]
pub enum ColorDepth {
    BPP32,
    BPP16,
    Reserved,
    Blank,
}

impl ColorDepth {
    /// The encoding of this variant.
    pub open spec fn bits(self) -> u8 {
        match self {
            ColorDepth::BPP32 => 3,
            ColorDepth::BPP16 => 2,
            ColorDepth::Reserved => 1,
            ColorDepth::Blank => 0,
        }
    }

    /// The variant a raw bit pattern decodes to. Decoding is total:
    /// every unmapped pattern decodes to `ColorDepth::Blank`, since the
    /// hardware may present encodings outside the documented set.
    pub open spec fn of_bits(bits: u8) -> ColorDepth {
        if bits == 3 {
            ColorDepth::BPP32
        } else if bits == 2 {
            ColorDepth::BPP16
        } else if bits == 1 {
            ColorDepth::Reserved
        } else {
            ColorDepth::Blank
        }
    }

    pub fn to_bits(self) -> (r: u8)
        ensures
            r == self.bits(),
    {
        match self {
            ColorDepth::BPP32 => 3,
            ColorDepth::BPP16 => 2,
            ColorDepth::Reserved => 1,
            ColorDepth::Blank => 0,
        }
    }

    pub fn from_bits(bits: u8) -> (r: ColorDepth)
        ensures
            r == ColorDepth::of_bits(bits),
    {
        if bits == 3 {
            ColorDepth::BPP32
        } else if bits == 2 {
            ColorDepth::BPP16
        } else if bits == 1 {
            ColorDepth::Reserved
        } else {
            ColorDepth::Blank
        }
    }
}

/// Law: encoding any defined variant and decoding the result returns the
/// same variant.
pub proof fn lemma_color_depth_round_trip(v: ColorDepth)
    ensures
        ColorDepth::of_bits(v.bits()) == v,
{
}

/// The `VI_CTRL` register.
#[derive(Clone, Copy, PartialEq, Eq, Structural, Debug)]
pub struct CtrlReg(pub u32);

impl CtrlReg {
    /// Field `depth`: bits 0..=1.
    pub fn depth(&self) -> (r: ColorDepth)
        ensures
            r == ColorDepth::of_bits(field_get32(self.0, 0, 2) as u8),
    {
        proof {
            lemma_get32_fits_u8(self.0, 0, 2);
        }
        ColorDepth::from_bits(extract32(self.0, 0, 2) as u8)
    }

    /// Returns `self` with field `depth` (bits 0..=1) set to `value`.
    pub fn with_depth(self, value: ColorDepth) -> (r: Self)
        ensures
            r.0 == field_set32(self.0, 0, 2, value.bits() as u32),
    {
        CtrlReg(deposit32(self.0, 0, 2, value.to_bits() as u32))
    }

    /// Field `gamma_dither_enable`: bit 2.
    pub fn gamma_dither_enable(&self) -> (r: bool)
        ensures
            r == (field_get32(self.0, 2, 1) == 1),
    {
        extract32(self.0, 2, 1) == 1
    }

    /// Returns `self` with field `gamma_dither_enable` (bit 2) set to `value`.
    pub fn with_gamma_dither_enable(self, value: bool) -> (r: Self)
        ensures
            r.0 == field_set32(self.0, 2, 1, bit_of(value)),
    {
        CtrlReg(deposit32(self.0, 2, 1, if value { 1 } else { 0 }))
    }

    /// Field `gamma_enable`: bit 3.
    pub fn gamma_enable(&self) -> (r: bool)
        ensures
            r == (field_get32(self.0, 3, 1) == 1),
    {
        extract32(self.0, 3, 1) == 1
    }

    /// Returns `self` with field `gamma_enable` (bit 3) set to `value`.
    pub fn with_gamma_enable(self, value: bool) -> (r: Self)
        ensures
            r.0 == field_set32(self.0, 3, 1, bit_of(value)),
    {
        CtrlReg(deposit32(self.0, 3, 1, if value { 1 } else { 0 }))
    }

    /// Field `divot_enable`: bit 4.
    pub fn divot_enable(&self) -> (r: bool)
        ensures
            r == (field_get32(self.0, 4, 1) == 1),
    {
        extract32(self.0, 4, 1) == 1
    }

    /// Returns `self` with field `divot_enable` (bit 4) set to `value`.
    pub fn with_divot_enable(self, value: bool) -> (r: Self)
        ensures
            r.0 == field_set32(self.0, 4, 1, bit_of(value)),
    {
        CtrlReg(deposit32(self.0, 4, 1, if value { 1 } else { 0 }))
    }

    /// Field `vbus_clock_enable`: bit 5. Never set this bit: research indicates doing so could damage the console.
    pub fn vbus_clock_enable(&self) -> (r: bool)
        ensures
            r == (field_get32(self.0, 5, 1) == 1),
    {
        extract32(self.0, 5, 1) == 1
    }

    /// Returns `self` with field `vbus_clock_enable` (bit 5) set to `value`.
    pub fn with_vbus_clock_enable(self, value: bool) -> (r: Self)
        ensures
            r.0 == field_set32(self.0, 5, 1, bit_of(value)),
    {
        CtrlReg(deposit32(self.0, 5, 1, if value { 1 } else { 0 }))
    }

    /// Field `serrate`: bit 6.
    pub fn serrate(&self) -> (r: bool)
        ensures
            r == (field_get32(self.0, 6, 1) == 1),
    {
        extract32(self.0, 6, 1) == 1
    }

    /// Returns `self` with field `serrate` (bit 6) set to `value`.
    pub fn with_serrate(self, value: bool) -> (r: Self)
        ensures
            r.0 == field_set32(self.0, 6, 1, bit_of(value)),
    {
        CtrlReg(deposit32(self.0, 6, 1, if value { 1 } else { 0 }))
    }

    /// Field `test_mode`: bit 7.
    pub fn test_mode(&self) -> (r: bool)
        ensures
            r == (field_get32(self.0, 7, 1) == 1),
    {
        extract32(self.0, 7, 1) == 1
    }

    /// Returns `self` with field `test_mode` (bit 7) set to `value`.
    pub fn with_test_mode(self, value: bool) -> (r: Self)
        ensures
            r.0 == field_set32(self.0, 7, 1, bit_of(value)),
    {
        CtrlReg(deposit32(self.0, 7, 1, if value { 1 } else { 0 }))
    }

    /// Field `aa_mode`: bits 8..=9.
    pub fn aa_mode(&self) -> (r: AntiAliasMode)
        ensures
            r == AntiAliasMode::of_bits(field_get32(self.0, 8, 2) as u8),
    {
        proof {
            lemma_get32_fits_u8(self.0, 8, 2);
        }
        AntiAliasMode::from_bits(extract32(self.0, 8, 2) as u8)
    }

    /// Returns `self` with field `aa_mode` (bits 8..=9) set to `value`.
    pub fn with_aa_mode(self, value: AntiAliasMode) -> (r: Self)
        ensures
            r.0 == field_set32(self.0, 8, 2, value.bits() as u32),
    {
        CtrlReg(deposit32(self.0, 8, 2, value.to_bits() as u32))
    }

    /// Field `kill_we`: bit 11.
    pub fn kill_we(&self) -> (r: bool)
        ensures
            r == (field_get32(self.0, 11, 1) == 1),
    {
        extract32(self.0, 11, 1) == 1
    }

    /// Returns `self` with field `kill_we` (bit 11) set to `value`.
    pub fn with_kill_we(self, value: bool) -> (r: Self)
        ensures
            r.0 == field_set32(self.0, 11, 1, bit_of(value)),
    {
        CtrlReg(deposit32(self.0, 11, 1, if value { 1 } else { 0 }))
    }

    /// Field `pixel_advance`: bits 12..=15.
    pub fn pixel_advance(&self) -> (r: u8)
        ensures
            r as u32 == field_get32(self.0, 12, 4),
    {
        proof {
            lemma_get32_fits_u8(self.0, 12, 4);
        }
        extract32(self.0, 12, 4) as u8
    }

    /// Returns `self` with field `pixel_advance` (bits 12..=15) set to `value`.
    pub fn with_pixel_advance(self, value: u8) -> (r: Self)
        ensures
            r.0 == field_set32(self.0, 12, 4, value as u32),
    {
        CtrlReg(deposit32(self.0, 12, 4, value as u32))
    }

    /// Field `dither_filter_enable`: bit 16.
    pub fn dither_filter_enable(&self) -> (r: bool)
        ensures
            r == (field_get32(self.0, 16, 1) == 1),
    {
        extract32(self.0, 16, 1) == 1
    }

    /// Returns `self` with field `dither_filter_enable` (bit 16) set to `value`.
    pub fn with_dither_filter_enable(self, value: bool) -> (r: Self)
        ensures
            r.0 == field_set32(self.0, 16, 1, bit_of(value)),
    {
        CtrlReg(deposit32(self.0, 16, 1, if value { 1 } else { 0 }))
    }
}

impl RegValue for CtrlReg {
    open spec fn raw_of(self) -> u32 {
        self.0
    }

    open spec fn of_raw(raw: u32) -> Self {
        CtrlReg(raw)
    }

    proof fn lemma_of_raw_inverse(raw: u32) {
    }

    fn to_raw(self) -> (r: u32) {
        self.0
    }

    fn from_raw(raw: u32) -> (v: Self) {
        CtrlReg(raw)
    }
}

/// The `VI_BURST` register.
#[derive(Clone, Copy, PartialEq, Eq, Structural, Debug)]
pub struct BurstReg(pub u32);

impl BurstReg {
    /// Field `hsync_width`: bits 0..=7.
    pub fn hsync_width(&self) -> (r: u8)
        ensures
            r as u32 == field_get32(self.0, 0, 8),
    {
        proof {
            lemma_get32_fits_u8(self.0, 0, 8);
        }
        extract32(self.0, 0, 8) as u8
    }

    /// Returns `self` with field `hsync_width` (bits 0..=7) set to `value`.
    pub fn with_hsync_width(self, value: u8) -> (r: Self)
        ensures
            r.0 == field_set32(self.0, 0, 8, value as u32),
    {
        BurstReg(deposit32(self.0, 0, 8, value as u32))
    }

    /// Field `burst_width`: bits 8..=15.
    pub fn burst_width(&self) -> (r: u8)
        ensures
            r as u32 == field_get32(self.0, 8, 8),
    {
        proof {
            lemma_get32_fits_u8(self.0, 8, 8);
        }
        extract32(self.0, 8, 8) as u8
    }

    /// Returns `self` with field `burst_width` (bits 8..=15) set to `value`.
    pub fn with_burst_width(self, value: u8) -> (r: Self)
        ensures
            r.0 == field_set32(self.0, 8, 8, value as u32),
    {
        BurstReg(deposit32(self.0, 8, 8, value as u32))
    }

    /// Field `vsync_width`: bits 16..=19.
    pub fn vsync_width(&self) -> (r: u8)
        ensures
            r as u32 == field_get32(self.0, 16, 4),
    {
        proof {
            lemma_get32_fits_u8(self.0, 16, 4);
        }
        extract32(self.0, 16, 4) as u8
    }

    /// Returns `self` with field `vsync_width` (bits 16..=19) set to `value`.
    pub fn with_vsync_width(self, value: u8) -> (r: Self)
        ensures
            r.0 == field_set32(self.0, 16, 4, value as u32),
    {
        BurstReg(deposit32(self.0, 16, 4, value as u32))
    }

    /// Field `burst_start`: bits 20..=29.
    pub fn burst_start(&self) -> (r: u16)
        ensures
            r as u32 == field_get32(self.0, 20, 10),
    {
        proof {
            lemma_get32_fits_u16(self.0, 20, 10);
        }
        extract32(self.0, 20, 10) as u16
    }

    /// Returns `self` with field `burst_start` (bits 20..=29) set to `value`.
    pub fn with_burst_start(self, value: u16) -> (r: Self)
        ensures
            r.0 == field_set32(self.0, 20, 10, value as u32),
    {
        BurstReg(deposit32(self.0, 20, 10, value as u32))
    }
}

impl RegValue for BurstReg {
    open spec fn raw_of(self) -> u32 {
        self.0
    }

    open spec fn of_raw(raw: u32) -> Self {
        BurstReg(raw)
    }

    proof fn lemma_of_raw_inverse(raw: u32) {
    }

    fn to_raw(self) -> (r: u32) {
        self.0
    }

    fn from_raw(raw: u32) -> (v: Self) {
        BurstReg(raw)
    }
}

/// The `VI_H_SYNC` register.
#[derive(Clone, Copy, PartialEq, Eq, Structural, Debug)]
pub struct HSyncReg(pub u32);

impl HSyncReg {
    /// Field `h_sync`: bits 0..=11.
    pub fn h_sync(&self) -> (r: u16)
        ensures
            r as u32 == field_get32(self.0, 0, 12),
    {
        proof {
            lemma_get32_fits_u16(self.0, 0, 12);
        }
        extract32(self.0, 0, 12) as u16
    }

    /// Returns `self` with field `h_sync` (bits 0..=11) set to `value`.
    pub fn with_h_sync(self, value: u16) -> (r: Self)
        ensures
            r.0 == field_set32(self.0, 0, 12, value as u32),
    {
        HSyncReg(deposit32(self.0, 0, 12, value as u32))
    }

    /// Field `leap`: bits 16..=20.
    pub fn leap(&self) -> (r: u8)
        ensures
            r as u32 == field_get32(self.0, 16, 5),
    {
        proof {
            lemma_get32_fits_u8(self.0, 16, 5);
        }
        extract32(self.0, 16, 5) as u8
    }

    /// Returns `self` with field `leap` (bits 16..=20) set to `value`.
    pub fn with_leap(self, value: u8) -> (r: Self)
        ensures
            r.0 == field_set32(self.0, 16, 5, value as u32),
    {
        HSyncReg(deposit32(self.0, 16, 5, value as u32))
    }
}

impl RegValue for HSyncReg {
    open spec fn raw_of(self) -> u32 {
        self.0
    }

    open spec fn of_raw(raw: u32) -> Self {
        HSyncReg(raw)
    }

    proof fn lemma_of_raw_inverse(raw: u32) {
    }

    fn to_raw(self) -> (r: u32) {
        self.0
    }

    fn from_raw(raw: u32) -> (v: Self) {
        HSyncReg(raw)
    }
}

/// The `VI_H_SYNC_LEAP` register.
#[derive(Clone, Copy, PartialEq, Eq, Structural, Debug)]
pub struct HSyncLeapReg(pub u32);

impl HSyncLeapReg {
    /// Field `leap_b`: bits 0..=9.
    pub fn leap_b(&self) -> (r: u16)
        ensures
            r as u32 == field_get32(self.0, 0, 10),
    {
        proof {
            lemma_get32_fits_u16(self.0, 0, 10);
        }
        extract32(self.0, 0, 10) as u16
    }

    /// Returns `self` with field `leap_b` (bits 0..=9) set to `value`.
    pub fn with_leap_b(self, value: u16) -> (r: Self)
        ensures
            r.0 == field_set32(self.0, 0, 10, value as u32),
    {
        HSyncLeapReg(deposit32(self.0, 0, 10, value as u32))
    }

    /// Field `leap_a`: bits 16..=25.
    pub fn leap_a(&self) -> (r: u16)
        ensures
            r as u32 == field_get32(self.0, 16, 10),
    {
        proof {
            lemma_get32_fits_u16(self.0, 16, 10);
        }
        extract32(self.0, 16, 10) as u16
    }

    /// Returns `self` with field `leap_a` (bits 16..=25) set to `value`.
    pub fn with_leap_a(self, value: u16) -> (r: Self)
        ensures
            r.0 == field_set32(self.0, 16, 10, value as u32),
    {
        HSyncLeapReg(deposit32(self.0, 16, 10, value as u32))
    }
}

impl RegValue for HSyncLeapReg {
    open spec fn raw_of(self) -> u32 {
        self.0
    }

    open spec fn of_raw(raw: u32) -> Self {
        HSyncLeapReg(raw)
    }

    proof fn lemma_of_raw_inverse(raw: u32) {
    }

    fn to_raw(self) -> (r: u32) {
        self.0
    }

    fn from_raw(raw: u32) -> (v: Self) {
        HSyncLeapReg(raw)
    }
}

/// The `VI_H_VIDEO` register.
#[derive(Clone, Copy, PartialEq, Eq, Structural, Debug)]
pub struct HVideoReg(pub u32);

impl HVideoReg {
    /// Field `h_end`: bits 0..=9.
    pub fn h_end(&self) -> (r: u16)
        ensures
            r as u32 == field_get32(self.0, 0, 10),
    {
        proof {
            lemma_get32_fits_u16(self.0, 0, 10);
        }
        extract32(self.0, 0, 10) as u16
    }

    /// Returns `self` with field `h_end` (bits 0..=9) set to `value`.
    pub fn with_h_end(self, value: u16) -> (r: Self)
        ensures
            r.0 == field_set32(self.0, 0, 10, value as u32),
    {
        HVideoReg(deposit32(self.0, 0, 10, value as u32))
    }

    /// Field `h_start`: bits 16..=25.
    pub fn h_start(&self) -> (r: u16)
        ensures
            r as u32 == field_get32(self.0, 16, 10),
    {
        proof {
            lemma_get32_fits_u16(self.0, 16, 10);
        }
        extract32(self.0, 16, 10) as u16
    }

    /// Returns `self` with field `h_start` (bits 16..=25) set to `value`.
    pub fn with_h_start(self, value: u16) -> (r: Self)
        ensures
            r.0 == field_set32(self.0, 16, 10, value as u32),
    {
        HVideoReg(deposit32(self.0, 16, 10, value as u32))
    }
}

impl RegValue for HVideoReg {
    open spec fn raw_of(self) -> u32 {
        self.0
    }

    open spec fn of_raw(raw: u32) -> Self {
        HVideoReg(raw)
    }

    proof fn lemma_of_raw_inverse(raw: u32) {
    }

    fn to_raw(self) -> (r: u32) {
        self.0
    }

    fn from_raw(raw: u32) -> (v: Self) {
        HVideoReg(raw)
    }
}

/// The `VI_V_VIDEO` register.
#[derive(Clone, Copy, PartialEq, Eq, Structural, Debug)]
pub struct VVideoReg(pub u32);

impl VVideoReg {
    /// Field `v_end`: bits 0..=9.
    pub fn v_end(&self) -> (r: u16)
        ensures
            r as u32 == field_get32(self.0, 0, 10),
    {
        proof {
            lemma_get32_fits_u16(self.0, 0, 10);
        }
        extract32(self.0, 0, 10) as u16
    }

    /// Returns `self` with field `v_end` (bits 0..=9) set to `value`.
    pub fn with_v_end(self, value: u16) -> (r: Self)
        ensures
            r.0 == field_set32(self.0, 0, 10, value as u32),
    {
        VVideoReg(deposit32(self.0, 0, 10, value as u32))
    }

    /// Field `v_start`: bits 16..=25.
    pub fn v_start(&self) -> (r: u16)
        ensures
            r as u32 == field_get32(self.0, 16, 10),
    {
        proof {
            lemma_get32_fits_u16(self.0, 16, 10);
        }
        extract32(self.0, 16, 10) as u16
    }

    /// Returns `self` with field `v_start` (bits 16..=25) set to `value`.
    pub fn with_v_start(self, value: u16) -> (r: Self)
        ensures
            r.0 == field_set32(self.0, 16, 10, value as u32),
    {
        VVideoReg(deposit32(self.0, 16, 10, value as u32))
    }
}

impl RegValue for VVideoReg {
    open spec fn raw_of(self) -> u32 {
        self.0
    }

    open spec fn of_raw(raw: u32) -> Self {
        VVideoReg(raw)
    }

    proof fn lemma_of_raw_inverse(raw: u32) {
    }

    fn to_raw(self) -> (r: u32) {
        self.0
    }

    fn from_raw(raw: u32) -> (v: Self) {
        VVideoReg(raw)
    }
}

/// The `VI_V_BURST` register.
#[derive(Clone, Copy, PartialEq, Eq, Structural, Debug)]
pub struct VBurstReg(pub u32);

impl VBurstReg {
    /// Field `v_burst_end`: bits 0..=9.
    pub fn v_burst_end(&self) -> (r: u16)
        ensures
            r as u32 == field_get32(self.0, 0, 10),
    {
        proof {
            lemma_get32_fits_u16(self.0, 0, 10);
        }
        extract32(self.0, 0, 10) as u16
    }

    /// Returns `self` with field `v_burst_end` (bits 0..=9) set to `value`.
    pub fn with_v_burst_end(self, value: u16) -> (r: Self)
        ensures
            r.0 == field_set32(self.0, 0, 10, value as u32),
    {
        VBurstReg(deposit32(self.0, 0, 10, value as u32))
    }

    /// Field `v_burst_start`: bits 16..=25.
    pub fn v_burst_start(&self) -> (r: u16)
        ensures
            r as u32 == field_get32(self.0, 16, 10),
    {
        proof {
            lemma_get32_fits_u16(self.0, 16, 10);
        }
        extract32(self.0, 16, 10) as u16
    }

    /// Returns `self` with field `v_burst_start` (bits 16..=25) set to `value`.
    pub fn with_v_burst_start(self, value: u16) -> (r: Self)
        ensures
            r.0 == field_set32(self.0, 16, 10, value as u32),
    {
        VBurstReg(deposit32(self.0, 16, 10, value as u32))
    }
}

impl RegValue for VBurstReg {
    open spec fn raw_of(self) -> u32 {
        self.0
    }

    open spec fn of_raw(raw: u32) -> Self {
        VBurstReg(raw)
    }

    proof fn lemma_of_raw_inverse(raw: u32) {
    }

    fn to_raw(self) -> (r: u32) {
        self.0
    }

    fn from_raw(raw: u32) -> (v: Self) {
        VBurstReg(raw)
    }
}

/// The `VI_X_SCALE` register.
#[derive(Clone, Copy, PartialEq, Eq, Structural, Debug)]
pub struct XScaleReg(pub u32);

impl XScaleReg {
    /// Field `x_scale`: bits 0..=11.
    pub fn x_scale(&self) -> (r: u16)
        ensures
            r as u32 == field_get32(self.0, 0, 12),
    {
        proof {
            lemma_get32_fits_u16(self.0, 0, 12);
        }
        extract32(self.0, 0, 12) as u16
    }

    /// Returns `self` with field `x_scale` (bits 0..=11) set to `value`.
    pub fn with_x_scale(self, value: u16) -> (r: Self)
        ensures
            r.0 == field_set32(self.0, 0, 12, value as u32),
    {
        XScaleReg(deposit32(self.0, 0, 12, value as u32))
    }

    /// Field `x_offset`: bits 16..=27.
    pub fn x_offset(&self) -> (r: u16)
        ensures
            r as u32 == field_get32(self.0, 16, 12),
    {
        proof {
            lemma_get32_fits_u16(self.0, 16, 12);
        }
        extract32(self.0, 16, 12) as u16
    }

    /// Returns `self` with field `x_offset` (bits 16..=27) set to `value`.
    pub fn with_x_offset(self, value: u16) -> (r: Self)
        ensures
            r.0 == field_set32(self.0, 16, 12, value as u32),
    {
        XScaleReg(deposit32(self.0, 16, 12, value as u32))
    }
}

impl RegValue for XScaleReg {
    open spec fn raw_of(self) -> u32 {
        self.0
    }

    open spec fn of_raw(raw: u32) -> Self {
        XScaleReg(raw)
    }

    proof fn lemma_of_raw_inverse(raw: u32) {
    }

    fn to_raw(self) -> (r: u32) {
        self.0
    }

    fn from_raw(raw: u32) -> (v: Self) {
        XScaleReg(raw)
    }
}

/// The `VI_Y_SCALE` register.
#[derive(Clone, Copy, PartialEq, Eq, Structural, Debug)]
pub struct YScaleReg(pub u32);

impl YScaleReg {
    /// Field `y_scale`: bits 0..=11.
    pub fn y_scale(&self) -> (r: u16)
        ensures
            r as u32 == field_get32(self.0, 0, 12),
    {
        proof {
            lemma_get32_fits_u16(self.0, 0, 12);
        }
        extract32(self.0, 0, 12) as u16
    }

    /// Returns `self` with field `y_scale` (bits 0..=11) set to `value`.
    pub fn with_y_scale(self, value: u16) -> (r: Self)
        ensures
            r.0 == field_set32(self.0, 0, 12, value as u32),
    {
        YScaleReg(deposit32(self.0, 0, 12, value as u32))
    }

    /// Field `y_offset`: bits 16..=27.
    pub fn y_offset(&self) -> (r: u16)
        ensures
            r as u32 == field_get32(self.0, 16, 12),
    {
        proof {
            lemma_get32_fits_u16(self.0, 16, 12);
        }
        extract32(self.0, 16, 12) as u16
    }

    /// Returns `self` with field `y_offset` (bits 16..=27) set to `value`.
    pub fn with_y_offset(self, value: u16) -> (r: Self)
        ensures
            r.0 == field_set32(self.0, 16, 12, value as u32),
    {
        YScaleReg(deposit32(self.0, 16, 12, value as u32))
    }
}

impl RegValue for YScaleReg {
    open spec fn raw_of(self) -> u32 {
        self.0
    }

    open spec fn of_raw(raw: u32) -> Self {
        YScaleReg(raw)
    }

    proof fn lemma_of_raw_inverse(raw: u32) {
    }

    fn to_raw(self) -> (r: u32) {
        self.0
    }

    fn from_raw(raw: u32) -> (v: Self) {
        YScaleReg(raw)
    }
}

} // verus!
