//! RCP - Serial Interface.

use vstd::prelude::*;

use crate::field::{bit_of, extract32, deposit32, field_get32, field_set32, lemma_get32_fits_u8};
use crate::{RW, RegValue};
use crate::memory::{SI_BASE, SI_DRAM_ADDR, SI_PIF_AD_RD4B, SI_PIF_AD_RD64B, SI_PIF_AD_WR4B, SI_PIF_AD_WR64B, SI_STATUS};

verus! {

/// The device's registers, each at its fixed byte offset from the base
/// address. Discarding the block never releases or resets hardware state;
/// it only ends the software reference.
pub struct RegisterBlock {
    pub dram_addr: RW<u32>,
    pub pif_ad_rd64b: RW<u32>,
    pub pif_ad_wr4b: RW<u32>,
    pub pif_ad_wr64b: RW<u32>,
    pub pif_ad_rd4b: RW<u32>,
    pub status: RW<StatusReg>,
}

impl RegisterBlock {
    /// Every cell sits at its documented address.
    pub open spec fn wf(self) -> bool {
        &&& self.dram_addr.addr() == SI_DRAM_ADDR
        &&& self.pif_ad_rd64b.addr() == SI_PIF_AD_RD64B
        &&& self.pif_ad_wr4b.addr() == SI_PIF_AD_WR4B
        &&& self.pif_ad_wr64b.addr() == SI_PIF_AD_WR64B
        &&& self.pif_ad_rd4b.addr() == SI_PIF_AD_RD4B
        &&& self.status.addr() == SI_STATUS
    }

    /// The block's fixed layout at the device's base address.
    pub fn new() -> (r: RegisterBlock)
        ensures
            r.wf(),
    {
        RegisterBlock {
            dram_addr: RW::at(SI_DRAM_ADDR),
            pif_ad_rd64b: RW::at(SI_PIF_AD_RD64B),
            pif_ad_wr4b: RW::at(SI_PIF_AD_WR4B),
            pif_ad_wr64b: RW::at(SI_PIF_AD_WR64B),
            pif_ad_rd4b: RW::at(SI_PIF_AD_RD4B),
            status: RW::at(SI_STATUS),
        }
    }
}

/// A handle on the Serial Interface's memory-mapped registers.
///
/// The handle itself touches no memory: every read or write names the
/// register region it acts on, and demands that the region contain the
/// cell's address.
pub struct SerialInterface {
    pub r: RegisterBlock,
}

impl SerialInterface {
    /// A handle on the device's register block at `SI_BASE`.
    pub fn new() -> (s: Self)
        ensures
            s.r.wf(),
    {
        SerialInterface { r: RegisterBlock::new() }
    }
}

/// The `SI_STATUS` register. Writing any value to it clears the SI
/// interrupt flag, so its one write-only field is the whole register.
#[derive(Clone, Copy, PartialEq, Eq, Structural, Debug)]
pub struct StatusReg(pub u32);

impl StatusReg {
    /// Returns `self` with field `whole_register` (bits 0..=31) set to `value`.
    pub fn with_whole_register(self, value: u32) -> (r: Self)
        ensures
            r.0 == field_set32(self.0, 0, 32, value),
    {
        StatusReg(deposit32(self.0, 0, 32, value))
    }

    /// Field `dma_busy`: bit 0.
    pub fn dma_busy(&self) -> (r: bool)
        ensures
            r == (field_get32(self.0, 0, 1) == 1),
    {
        extract32(self.0, 0, 1) == 1
    }

    /// Field `io_busy`: bit 1.
    pub fn io_busy(&self) -> (r: bool)
        ensures
            r == (field_get32(self.0, 1, 1) == 1),
    {
        extract32(self.0, 1, 1) == 1
    }

    /// Field `read_pending`: bit 2.
    pub fn read_pending(&self) -> (r: bool)
        ensures
            r == (field_get32(self.0, 2, 1) == 1),
    {
        extract32(self.0, 2, 1) == 1
    }

    /// Field `dma_error`: bit 3.
    pub fn dma_error(&self) -> (r: bool)
        ensures
            r == (field_get32(self.0, 3, 1) == 1),
    {
        extract32(self.0, 3, 1) == 1
    }

    /// Field `pch_state`: bits 4..=7.
    pub fn pch_state(&self) -> (r: u8)
        ensures
            r as u32 == field_get32(self.0, 4, 4),
    {
        proof {
            lemma_get32_fits_u8(self.0, 4, 4);
        }
        extract32(self.0, 4, 4) as u8
    }

    /// Field `dma_state`: bits 8..=11.
    pub fn dma_state(&self) -> (r: u8)
        ensures
            r as u32 == field_get32(self.0, 8, 4),
    {
        proof {
            lemma_get32_fits_u8(self.0, 8, 4);
        }
        extract32(self.0, 8, 4) as u8
    }

    /// Mirror of the SI interrupt flag from `MI_INTERRUPT`; an SI interrupt occurs when a DMA write finishes.
    pub fn interrupt(&self) -> (r: bool)
        ensures
            r == (field_get32(self.0, 12, 1) == 1),
    {
        extract32(self.0, 12, 1) == 1
    }

    /// Returns `self` with field `interrupt` (bit 12) set to `value`.
    pub fn with_interrupt(self, value: bool) -> (r: Self)
        ensures
            r.0 == field_set32(self.0, 12, 1, bit_of(value)),
    {
        StatusReg(deposit32(self.0, 12, 1, if value { 1 } else { 0 }))
    }
}

impl RegValue for StatusReg {
    open spec fn raw_of(self) -> u32 {
        self.0
    }

    open spec fn of_raw(raw: u32) -> Self {
        StatusReg(raw)
    }

    proof fn lemma_of_raw_inverse(raw: u32) {
    }

    fn to_raw(self) -> (r: u32) {
        self.0
    }

    fn from_raw(raw: u32) -> (v: Self) {
        StatusReg(raw)
    }
}

} // verus!
