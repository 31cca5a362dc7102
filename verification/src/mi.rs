//! RCP - MIPS Interface.

use vstd::prelude::*;

use crate::field::{bit_of, extract32, deposit32, field_get32, field_set32, lemma_get32_fits_u8};
use crate::{RO, DualView, RegValue};
use crate::memory::{MI_BASE, MI_INTERRUPT, MI_MASK, MI_MODE, MI_VERSION};

verus! {

/// The device's registers, each at its fixed byte offset from the base
/// address. Discarding the block never releases or resets hardware state;
/// it only ends the software reference.
pub struct RegisterBlock {
    pub mode: DualView<ModeRegRead, ModeRegWrite>,
    pub version: RO<VersionReg>,
    pub interrupt: RO<InterruptReg>,
    pub mask: DualView<MaskRegRead, MaskRegWrite>,
}

impl RegisterBlock {
    /// Every cell sits at its documented address.
    pub open spec fn wf(self) -> bool {
        &&& self.mode.addr() == MI_MODE
        &&& self.version.addr() == MI_VERSION
        &&& self.interrupt.addr() == MI_INTERRUPT
        &&& self.mask.addr() == MI_MASK
    }

    /// The block's fixed layout at the device's base address.
    pub fn new() -> (r: RegisterBlock)
        ensures
            r.wf(),
    {
        RegisterBlock {
            mode: DualView::at(MI_MODE),
            version: RO::at(MI_VERSION),
            interrupt: RO::at(MI_INTERRUPT),
            mask: DualView::at(MI_MASK),
        }
    }
}

/// A handle on the MIPS Interface's memory-mapped registers.
///
/// The handle itself touches no memory: every read or write names the
/// register region it acts on, and demands that the region contain the
/// cell's address.
pub struct MipsInterface {
    pub r: RegisterBlock,
}

impl MipsInterface {
    /// A handle on the device's register block at `MI_BASE`.
    pub fn new() -> (s: Self)
        ensures
            s.r.wf(),
    {
        MipsInterface { r: RegisterBlock::new() }
    }
}

/// The `MI_MODE` register's bit layout as it reads back.
#[derive(Clone, Copy, PartialEq, Eq, Structural, Debug)]
pub struct ModeRegRead(pub u32);

impl ModeRegRead {
    /// Field `init_length`: bits 0..=6.
    pub fn init_length(&self) -> (r: u8)
        ensures
            r as u32 == field_get32(self.0, 0, 7),
    {
        proof {
            lemma_get32_fits_u8(self.0, 0, 7);
        }
        extract32(self.0, 0, 7) as u8
    }

    /// Field `init_mode`: bit 7.
    pub fn init_mode(&self) -> (r: bool)
        ensures
            r == (field_get32(self.0, 7, 1) == 1),
    {
        extract32(self.0, 7, 1) == 1
    }

    /// Field `ebus_test_mode`: bit 8.
    pub fn ebus_test_mode(&self) -> (r: bool)
        ensures
            r == (field_get32(self.0, 8, 1) == 1),
    {
        extract32(self.0, 8, 1) == 1
    }

    /// Field `rdram_register_mode`: bit 9.
    pub fn rdram_register_mode(&self) -> (r: bool)
        ensures
            r == (field_get32(self.0, 9, 1) == 1),
    {
        extract32(self.0, 9, 1) == 1
    }
}

impl RegValue for ModeRegRead {
    open spec fn raw_of(self) -> u32 {
        self.0
    }

    open spec fn of_raw(raw: u32) -> Self {
        ModeRegRead(raw)
    }

    proof fn lemma_of_raw_inverse(raw: u32) {
    }

    fn to_raw(self) -> (r: u32) {
        self.0
    }

    fn from_raw(raw: u32) -> (v: Self) {
        ModeRegRead(raw)
    }
}

/// The `MI_MODE` register's bit layout as written: the set/clear request
/// bits do not read back.
#[derive(Clone, Copy, PartialEq, Eq, Structural, Debug)]
pub struct ModeRegWrite(pub u32);

impl ModeRegWrite {
    /// Returns `self` with field `init_length` (bits 0..=6) set to `value`.
    pub fn with_init_length(self, value: u8) -> (r: Self)
        ensures
            r.0 == field_set32(self.0, 0, 7, value as u32),
    {
        ModeRegWrite(deposit32(self.0, 0, 7, value as u32))
    }

    /// Returns `self` with field `clear_init_mode` (bit 7) set to `value`.
    fn with_clear_init_mode(self, value: bool) -> (r: Self)
        ensures
            r.0 == field_set32(self.0, 7, 1, bit_of(value)),
    {
        ModeRegWrite(deposit32(self.0, 7, 1, if value { 1 } else { 0 }))
    }

    /// Returns `self` with field `set_init_mode` (bit 8) set to `value`.
    fn with_set_init_mode(self, value: bool) -> (r: Self)
        ensures
            r.0 == field_set32(self.0, 8, 1, bit_of(value)),
    {
        ModeRegWrite(deposit32(self.0, 8, 1, if value { 1 } else { 0 }))
    }

    /// Returns `self` with field `clear_ebus_test_mode` (bit 9) set to `value`.
    fn with_clear_ebus_test_mode(self, value: bool) -> (r: Self)
        ensures
            r.0 == field_set32(self.0, 9, 1, bit_of(value)),
    {
        ModeRegWrite(deposit32(self.0, 9, 1, if value { 1 } else { 0 }))
    }

    /// Returns `self` with field `set_ebus_test_mode` (bit 10) set to `value`.
    fn with_set_ebus_test_mode(self, value: bool) -> (r: Self)
        ensures
            r.0 == field_set32(self.0, 10, 1, bit_of(value)),
    {
        ModeRegWrite(deposit32(self.0, 10, 1, if value { 1 } else { 0 }))
    }

    /// Returns `self` with field `clear_dp_interrupt` (bit 11) set to `value`.
    fn with_clear_dp_interrupt(self, value: bool) -> (r: Self)
        ensures
            r.0 == field_set32(self.0, 11, 1, bit_of(value)),
    {
        ModeRegWrite(deposit32(self.0, 11, 1, if value { 1 } else { 0 }))
    }

    /// Returns `self` with field `clear_rdram_register_mode` (bit 12) set to `value`.
    fn with_clear_rdram_register_mode(self, value: bool) -> (r: Self)
        ensures
            r.0 == field_set32(self.0, 12, 1, bit_of(value)),
    {
        ModeRegWrite(deposit32(self.0, 12, 1, if value { 1 } else { 0 }))
    }

    /// Returns `self` with field `set_rdram_register_mode` (bit 13) set to `value`.
    fn with_set_rdram_register_mode(self, value: bool) -> (r: Self)
        ensures
            r.0 == field_set32(self.0, 13, 1, bit_of(value)),
    {
        ModeRegWrite(deposit32(self.0, 13, 1, if value { 1 } else { 0 }))
    }

    /// Requests that init mode be cleared.
    pub fn clear_init_mode(self) -> (r: Self)
        ensures
            r.0 == field_set32(self.0, 7, 1, 1),
    {
        self.with_clear_init_mode(true)
    }

    /// Requests that init mode be set.
    pub fn set_init_mode(self) -> (r: Self)
        ensures
            r.0 == field_set32(self.0, 8, 1, 1),
    {
        self.with_set_init_mode(true)
    }

    /// Requests that ebus test mode be cleared.
    pub fn clear_ebus_test_mode(self) -> (r: Self)
        ensures
            r.0 == field_set32(self.0, 9, 1, 1),
    {
        self.with_clear_ebus_test_mode(true)
    }

    /// Requests that ebus test mode be set.
    pub fn set_ebus_test_mode(self) -> (r: Self)
        ensures
            r.0 == field_set32(self.0, 10, 1, 1),
    {
        self.with_set_ebus_test_mode(true)
    }

    /// Acknowledges (clears) a pending DP interrupt.
    pub fn clear_dp_interrupt(self) -> (r: Self)
        ensures
            r.0 == field_set32(self.0, 11, 1, 1),
    {
        self.with_clear_dp_interrupt(true)
    }

    /// Requests that RDRAM register mode be cleared.
    pub fn clear_rdram_register_mode(self) -> (r: Self)
        ensures
            r.0 == field_set32(self.0, 12, 1, 1),
    {
        self.with_clear_rdram_register_mode(true)
    }

    /// Requests that RDRAM register mode be set.
    pub fn set_rdram_register_mode(self) -> (r: Self)
        ensures
            r.0 == field_set32(self.0, 13, 1, 1),
    {
        self.with_set_rdram_register_mode(true)
    }
}

impl RegValue for ModeRegWrite {
    open spec fn raw_of(self) -> u32 {
        self.0
    }

    open spec fn of_raw(raw: u32) -> Self {
        ModeRegWrite(raw)
    }

    proof fn lemma_of_raw_inverse(raw: u32) {
    }

    fn to_raw(self) -> (r: u32) {
        self.0
    }

    fn from_raw(raw: u32) -> (v: Self) {
        ModeRegWrite(raw)
    }
}

/// The `MI_VERSION` register: hardware revision numbers, read-only.
#[derive(Clone, Copy, PartialEq, Eq, Structural, Debug)]
pub struct VersionReg(pub u32);

impl VersionReg {
    /// Field `io_version`: bits 0..=7.
    pub fn io_version(&self) -> (r: u8)
        ensures
            r as u32 == field_get32(self.0, 0, 8),
    {
        proof {
            lemma_get32_fits_u8(self.0, 0, 8);
        }
        extract32(self.0, 0, 8) as u8
    }

    /// Field `rac_version`: bits 8..=15.
    pub fn rac_version(&self) -> (r: u8)
        ensures
            r as u32 == field_get32(self.0, 8, 8),
    {
        proof {
            lemma_get32_fits_u8(self.0, 8, 8);
        }
        extract32(self.0, 8, 8) as u8
    }

    /// Field `rdp_version`: bits 16..=23.
    pub fn rdp_version(&self) -> (r: u8)
        ensures
            r as u32 == field_get32(self.0, 16, 8),
    {
        proof {
            lemma_get32_fits_u8(self.0, 16, 8);
        }
        extract32(self.0, 16, 8) as u8
    }

    /// Field `rsp_version`: bits 24..=31.
    pub fn rsp_version(&self) -> (r: u8)
        ensures
            r as u32 == field_get32(self.0, 24, 8),
    {
        proof {
            lemma_get32_fits_u8(self.0, 24, 8);
        }
        extract32(self.0, 24, 8) as u8
    }
}

impl RegValue for VersionReg {
    open spec fn raw_of(self) -> u32 {
        self.0
    }

    open spec fn of_raw(raw: u32) -> Self {
        VersionReg(raw)
    }

    proof fn lemma_of_raw_inverse(raw: u32) {
    }

    fn to_raw(self) -> (r: u32) {
        self.0
    }

    fn from_raw(raw: u32) -> (v: Self) {
        VersionReg(raw)
    }
}

/// The `MI_INTERRUPT` register: one pending flag per interrupt source,
/// read-only.
#[derive(Clone, Copy, PartialEq, Eq, Structural, Debug)]
pub struct InterruptReg(pub u32);

impl InterruptReg {
    /// Field `sp`: bit 0.
    pub fn sp(&self) -> (r: bool)
        ensures
            r == (field_get32(self.0, 0, 1) == 1),
    {
        extract32(self.0, 0, 1) == 1
    }

    /// Field `si`: bit 1.
    pub fn si(&self) -> (r: bool)
        ensures
            r == (field_get32(self.0, 1, 1) == 1),
    {
        extract32(self.0, 1, 1) == 1
    }

    /// Field `ai`: bit 2.
    pub fn ai(&self) -> (r: bool)
        ensures
            r == (field_get32(self.0, 2, 1) == 1),
    {
        extract32(self.0, 2, 1) == 1
    }

    /// Field `vi`: bit 3.
    pub fn vi(&self) -> (r: bool)
        ensures
            r == (field_get32(self.0, 3, 1) == 1),
    {
        extract32(self.0, 3, 1) == 1
    }

    /// Field `pi`: bit 4.
    pub fn pi(&self) -> (r: bool)
        ensures
            r == (field_get32(self.0, 4, 1) == 1),
    {
        extract32(self.0, 4, 1) == 1
    }

    /// Field `dp`: bit 5.
    pub fn dp(&self) -> (r: bool)
        ensures
            r == (field_get32(self.0, 5, 1) == 1),
    {
        extract32(self.0, 5, 1) == 1
    }
}

impl RegValue for InterruptReg {
    open spec fn raw_of(self) -> u32 {
        self.0
    }

    open spec fn of_raw(raw: u32) -> Self {
        InterruptReg(raw)
    }

    proof fn lemma_of_raw_inverse(raw: u32) {
    }

    fn to_raw(self) -> (r: u32) {
        self.0
    }

    fn from_raw(raw: u32) -> (v: Self) {
        InterruptReg(raw)
    }
}

/// The `MI_MASK` register's bit layout as it reads back: the current mask
/// per interrupt source.
#[derive(Clone, Copy, PartialEq, Eq, Structural, Debug)]
pub struct MaskRegRead(pub u32);

impl MaskRegRead {
    /// Field `sp_interrupt_mask`: bit 0.
    pub fn sp_interrupt_mask(&self) -> (r: bool)
        ensures
            r == (field_get32(self.0, 0, 1) == 1),
    {
        extract32(self.0, 0, 1) == 1
    }

    /// Field `si_interrupt_mask`: bit 1.
    pub fn si_interrupt_mask(&self) -> (r: bool)
        ensures
            r == (field_get32(self.0, 1, 1) == 1),
    {
        extract32(self.0, 1, 1) == 1
    }

    /// Field `ai_interrupt_mask`: bit 2.
    pub fn ai_interrupt_mask(&self) -> (r: bool)
        ensures
            r == (field_get32(self.0, 2, 1) == 1),
    {
        extract32(self.0, 2, 1) == 1
    }

    /// Field `vi_interrupt_mask`: bit 3.
    pub fn vi_interrupt_mask(&self) -> (r: bool)
        ensures
            r == (field_get32(self.0, 3, 1) == 1),
    {
        extract32(self.0, 3, 1) == 1
    }

    /// Field `pi_interrupt_mask`: bit 4.
    pub fn pi_interrupt_mask(&self) -> (r: bool)
        ensures
            r == (field_get32(self.0, 4, 1) == 1),
    {
        extract32(self.0, 4, 1) == 1
    }

    /// Field `dp_interrupt_mask`: bit 5.
    pub fn dp_interrupt_mask(&self) -> (r: bool)
        ensures
            r == (field_get32(self.0, 5, 1) == 1),
    {
        extract32(self.0, 5, 1) == 1
    }
}

impl RegValue for MaskRegRead {
    open spec fn raw_of(self) -> u32 {
        self.0
    }

    open spec fn of_raw(raw: u32) -> Self {
        MaskRegRead(raw)
    }

    proof fn lemma_of_raw_inverse(raw: u32) {
    }

    fn to_raw(self) -> (r: u32) {
        self.0
    }

    fn from_raw(raw: u32) -> (v: Self) {
        MaskRegRead(raw)
    }
}

/// The `MI_MASK` register's bit layout as written: paired set/clear
/// request bits per interrupt source.
#[derive(Clone, Copy, PartialEq, Eq, Structural, Debug)]
pub struct MaskRegWrite(pub u32);

impl MaskRegWrite {
    /// Returns `self` with field `clear_sp` (bit 0) set to `value`.
    fn with_clear_sp(self, value: bool) -> (r: Self)
        ensures
            r.0 == field_set32(self.0, 0, 1, bit_of(value)),
    {
        MaskRegWrite(deposit32(self.0, 0, 1, if value { 1 } else { 0 }))
    }

    /// Returns `self` with field `set_sp` (bit 1) set to `value`.
    fn with_set_sp(self, value: bool) -> (r: Self)
        ensures
            r.0 == field_set32(self.0, 1, 1, bit_of(value)),
    {
        MaskRegWrite(deposit32(self.0, 1, 1, if value { 1 } else { 0 }))
    }

    /// Returns `self` with field `clear_si` (bit 2) set to `value`.
    fn with_clear_si(self, value: bool) -> (r: Self)
        ensures
            r.0 == field_set32(self.0, 2, 1, bit_of(value)),
    {
        MaskRegWrite(deposit32(self.0, 2, 1, if value { 1 } else { 0 }))
    }

    /// Returns `self` with field `set_si` (bit 3) set to `value`.
    fn with_set_si(self, value: bool) -> (r: Self)
        ensures
            r.0 == field_set32(self.0, 3, 1, bit_of(value)),
    {
        MaskRegWrite(deposit32(self.0, 3, 1, if value { 1 } else { 0 }))
    }

    /// Returns `self` with field `clear_ai` (bit 4) set to `value`.
    fn with_clear_ai(self, value: bool) -> (r: Self)
        ensures
            r.0 == field_set32(self.0, 4, 1, bit_of(value)),
    {
        MaskRegWrite(deposit32(self.0, 4, 1, if value { 1 } else { 0 }))
    }

    /// Returns `self` with field `set_ai` (bit 5) set to `value`.
    fn with_set_ai(self, value: bool) -> (r: Self)
        ensures
            r.0 == field_set32(self.0, 5, 1, bit_of(value)),
    {
        MaskRegWrite(deposit32(self.0, 5, 1, if value { 1 } else { 0 }))
    }

    /// Returns `self` with field `clear_vi` (bit 6) set to `value`.
    fn with_clear_vi(self, value: bool) -> (r: Self)
        ensures
            r.0 == field_set32(self.0, 6, 1, bit_of(value)),
    {
        MaskRegWrite(deposit32(self.0, 6, 1, if value { 1 } else { 0 }))
    }

    /// Returns `self` with field `set_vi` (bit 7) set to `value`.
    fn with_set_vi(self, value: bool) -> (r: Self)
        ensures
            r.0 == field_set32(self.0, 7, 1, bit_of(value)),
    {
        MaskRegWrite(deposit32(self.0, 7, 1, if value { 1 } else { 0 }))
    }

    /// Returns `self` with field `clear_pi` (bit 8) set to `value`.
    fn with_clear_pi(self, value: bool) -> (r: Self)
        ensures
            r.0 == field_set32(self.0, 8, 1, bit_of(value)),
    {
        MaskRegWrite(deposit32(self.0, 8, 1, if value { 1 } else { 0 }))
    }

    /// Returns `self` with field `set_pi` (bit 9) set to `value`.
    fn with_set_pi(self, value: bool) -> (r: Self)
        ensures
            r.0 == field_set32(self.0, 9, 1, bit_of(value)),
    {
        MaskRegWrite(deposit32(self.0, 9, 1, if value { 1 } else { 0 }))
    }

    /// Returns `self` with field `clear_dp` (bit 10) set to `value`.
    fn with_clear_dp(self, value: bool) -> (r: Self)
        ensures
            r.0 == field_set32(self.0, 10, 1, bit_of(value)),
    {
        MaskRegWrite(deposit32(self.0, 10, 1, if value { 1 } else { 0 }))
    }

    /// Returns `self` with field `set_dp` (bit 11) set to `value`.
    fn with_set_dp(self, value: bool) -> (r: Self)
        ensures
            r.0 == field_set32(self.0, 11, 1, bit_of(value)),
    {
        MaskRegWrite(deposit32(self.0, 11, 1, if value { 1 } else { 0 }))
    }

    /// Requests that the SP interrupt mask be cleared.
    pub fn clear_sp_mask(self) -> (r: Self)
        ensures
            r.0 == field_set32(self.0, 0, 1, 1),
    {
        self.with_clear_sp(true)
    }

    /// Requests that the SP interrupt mask be set.
    pub fn set_sp_mask(self) -> (r: Self)
        ensures
            r.0 == field_set32(self.0, 1, 1, 1),
    {
        self.with_set_sp(true)
    }

    /// Requests that the SI interrupt mask be cleared.
    pub fn clear_si_mask(self) -> (r: Self)
        ensures
            r.0 == field_set32(self.0, 2, 1, 1),
    {
        self.with_clear_si(true)
    }

    /// Requests that the SI interrupt mask be set.
    pub fn set_si_mask(self) -> (r: Self)
        ensures
            r.0 == field_set32(self.0, 3, 1, 1),
    {
        self.with_set_si(true)
    }

    /// Requests that the AI interrupt mask be cleared.
    pub fn clear_ai_mask(self) -> (r: Self)
        ensures
            r.0 == field_set32(self.0, 4, 1, 1),
    {
        self.with_clear_ai(true)
    }

    /// Requests that the AI interrupt mask be set.
    pub fn set_ai_mask(self) -> (r: Self)
        ensures
            r.0 == field_set32(self.0, 5, 1, 1),
    {
        self.with_set_ai(true)
    }

    /// Requests that the VI interrupt mask be cleared.
    pub fn clear_vi_mask(self) -> (r: Self)
        ensures
            r.0 == field_set32(self.0, 6, 1, 1),
    {
        self.with_clear_vi(true)
    }

    /// Requests that the VI interrupt mask be set.
    pub fn set_vi_mask(self) -> (r: Self)
        ensures
            r.0 == field_set32(self.0, 7, 1, 1),
    {
        self.with_set_vi(true)
    }

    /// Requests that the PI interrupt mask be cleared.
    pub fn clear_pi_mask(self) -> (r: Self)
        ensures
            r.0 == field_set32(self.0, 8, 1, 1),
    {
        self.with_clear_pi(true)
    }

    /// Requests that the PI interrupt mask be set.
    pub fn set_pi_mask(self) -> (r: Self)
        ensures
            r.0 == field_set32(self.0, 9, 1, 1),
    {
        self.with_set_pi(true)
    }

    /// Requests that the DP interrupt mask be cleared.
    pub fn clear_dp_mask(self) -> (r: Self)
        ensures
            r.0 == field_set32(self.0, 10, 1, 1),
    {
        self.with_clear_dp(true)
    }

    /// Requests that the DP interrupt mask be set.
    pub fn set_dp_mask(self) -> (r: Self)
        ensures
            r.0 == field_set32(self.0, 11, 1, 1),
    {
        self.with_set_dp(true)
    }
}

impl RegValue for MaskRegWrite {
    open spec fn raw_of(self) -> u32 {
        self.0
    }

    open spec fn of_raw(raw: u32) -> Self {
        MaskRegWrite(raw)
    }

    proof fn lemma_of_raw_inverse(raw: u32) {
    }

    fn to_raw(self) -> (r: u32) {
        self.0
    }

    fn from_raw(raw: u32) -> (v: Self) {
        MaskRegWrite(raw)
    }
}

} // verus!
