//! RCP - Audio Interface.

use vstd::prelude::*;

use crate::field::{extract32, deposit32, field_get32, field_set32, lemma_get32_fits_u16};
use crate::{RW, WO, RegValue};
use crate::memory::{AI_BASE, AI_BIT_RATE, AI_CONTROL, AI_DAC_RATE, AI_DRAM_ADDR, AI_LENGTH, AI_STATUS};

verus! {

/// The device's registers, each at its fixed byte offset from the base
/// address. Discarding the block never releases or resets hardware state;
/// it only ends the software reference.
pub struct RegisterBlock {
    pub dram_addr: WO<u32>,
    pub length: RW<u32>,
    pub control: WO<u32>,
    pub status: RW<StatusReg>,
    pub dac_rate: WO<u32>,
    pub bit_rate: WO<u32>,
}

impl RegisterBlock {
    /// Every cell sits at its documented address.
    pub open spec fn wf(self) -> bool {
        &&& self.dram_addr.addr() == AI_DRAM_ADDR
        &&& self.length.addr() == AI_LENGTH
        &&& self.control.addr() == AI_CONTROL
        &&& self.status.addr() == AI_STATUS
        &&& self.dac_rate.addr() == AI_DAC_RATE
        &&& self.bit_rate.addr() == AI_BIT_RATE
    }

    /// The block's fixed layout at the device's base address.
    pub fn new() -> (r: RegisterBlock)
        ensures
            r.wf(),
    {
        RegisterBlock {
            dram_addr: WO::at(AI_DRAM_ADDR),
            length: RW::at(AI_LENGTH),
            control: WO::at(AI_CONTROL),
            status: RW::at(AI_STATUS),
            dac_rate: WO::at(AI_DAC_RATE),
            bit_rate: WO::at(AI_BIT_RATE),
        }
    }
}

/// A handle on the Audio Interface's memory-mapped registers.
///
/// The handle itself touches no memory: every read or write names the
/// register region it acts on, and demands that the region contain the
/// cell's address.
pub struct AudioInterface {
    pub r: RegisterBlock,
}

impl AudioInterface {
    /// A handle on the device's register block at `AI_BASE`.
    pub fn new() -> (s: Self)
        ensures
            s.r.wf(),
    {
        AudioInterface { r: RegisterBlock::new() }
    }
}

/// The `AI_STATUS` register. Writing any value to it clears the AI
/// interrupt, so its one write-only field is the whole register.
#[derive(Clone, Copy, PartialEq, Eq, Structural, Debug)]
pub struct StatusReg(pub u32);

impl StatusReg {
    /// Returns `self` with field `clear_interrupt` (bits 0..=31) set to `value`.
    pub fn with_clear_interrupt(self, value: u32) -> (r: Self)
        ensures
            r.0 == field_set32(self.0, 0, 32, value),
    {
        StatusReg(deposit32(self.0, 0, 32, value))
    }

    /// Field `full`: bit 0.
    pub fn full(&self) -> (r: bool)
        ensures
            r == (field_get32(self.0, 0, 1) == 1),
    {
        extract32(self.0, 0, 1) == 1
    }

    /// Field `dac_cntr`: bits 1..=14.
    pub fn dac_cntr(&self) -> (r: u16)
        ensures
            r as u32 == field_get32(self.0, 1, 14),
    {
        proof {
            lemma_get32_fits_u16(self.0, 1, 14);
        }
        extract32(self.0, 1, 14) as u16
    }

    /// Field `bitclock_state`: bit 16.
    pub fn bitclock_state(&self) -> (r: bool)
        ensures
            r == (field_get32(self.0, 16, 1) == 1),
    {
        extract32(self.0, 16, 1) == 1
    }

    /// Field `abus_word_2`: bit 19.
    pub fn abus_word_2(&self) -> (r: bool)
        ensures
            r == (field_get32(self.0, 19, 1) == 1),
    {
        extract32(self.0, 19, 1) == 1
    }

    /// Field `word_select`: bit 21.
    pub fn word_select(&self) -> (r: bool)
        ensures
            r == (field_get32(self.0, 21, 1) == 1),
    {
        extract32(self.0, 21, 1) == 1
    }

    /// Field `data_available`: bit 22.
    pub fn data_available(&self) -> (r: bool)
        ensures
            r == (field_get32(self.0, 22, 1) == 1),
    {
        extract32(self.0, 22, 1) == 1
    }

    /// Field `dfifo2_loaded`: bit 23.
    pub fn dfifo2_loaded(&self) -> (r: bool)
        ensures
            r == (field_get32(self.0, 23, 1) == 1),
    {
        extract32(self.0, 23, 1) == 1
    }

    /// Field `dma_enable`: bit 25.
    pub fn dma_enable(&self) -> (r: bool)
        ensures
            r == (field_get32(self.0, 25, 1) == 1),
    {
        extract32(self.0, 25, 1) == 1
    }

    /// Field `dma_request`: bit 26.
    pub fn dma_request(&self) -> (r: bool)
        ensures
            r == (field_get32(self.0, 26, 1) == 1),
    {
        extract32(self.0, 26, 1) == 1
    }

    /// Field `dma_busy`: bit 27.
    pub fn dma_busy(&self) -> (r: bool)
        ensures
            r == (field_get32(self.0, 27, 1) == 1),
    {
        extract32(self.0, 27, 1) == 1
    }

    /// Field `busy`: bit 30.
    pub fn busy(&self) -> (r: bool)
        ensures
            r == (field_get32(self.0, 30, 1) == 1),
    {
        extract32(self.0, 30, 1) == 1
    }
}

impl RegValue for StatusReg {
    open spec fn raw_of(self) -> u32 {
        self.0
    }

    open spec fn of_raw(raw: u32) -> Self {
        StatusReg(raw)
    }

    proof fn lemma_of_raw_inverse(raw: u32) {
    }

    fn to_raw(self) -> (r: u32) {
        self.0
    }

    fn from_raw(raw: u32) -> (v: Self) {
        StatusReg(raw)
    }
}

} // verus!
