//! RCP - Peripheral Interface.

use vstd::prelude::*;

use crate::field::{bit_of, extract32, deposit32, field_get32, field_set32};
use crate::{RW, DualView, RegValue};
use crate::memory::{PI_BASE, PI_BSD_DOM1_LAT, PI_BSD_DOM1_PGS, PI_BSD_DOM1_PWD, PI_BSD_DOM1_RLS, PI_BSD_DOM2_LAT, PI_BSD_DOM2_PGS, PI_BSD_DOM2_PWD, PI_BSD_DOM2_RLS, PI_CART_ADDR, PI_DRAM_ADDR, PI_RD_LEN, PI_STATUS, PI_WR_LEN};

verus! {

/// The device's registers, each at its fixed byte offset from the base
/// address. Discarding the block never releases or resets hardware state;
/// it only ends the software reference.
pub struct RegisterBlock {
    pub dram_addr: RW<u32>,
    pub cart_addr: RW<u32>,
    pub rd_len: RW<u32>,
    pub wr_len: RW<u32>,
    pub status: DualView<StatusRegRead, StatusRegWrite>,
    pub dom1_lat: RW<u32>,
    pub dom1_pwd: RW<u32>,
    pub dom1_pgs: RW<u32>,
    pub dom1_rls: RW<u32>,
    pub dom2_lat: RW<u32>,
    pub dom2_pwd: RW<u32>,
    pub dom2_pgs: RW<u32>,
    pub dom2_rls: RW<u32>,
}

impl RegisterBlock {
    /// Every cell sits at its documented address.
    pub open spec fn wf(self) -> bool {
        &&& self.dram_addr.addr() == PI_DRAM_ADDR
        &&& self.cart_addr.addr() == PI_CART_ADDR
        &&& self.rd_len.addr() == PI_RD_LEN
        &&& self.wr_len.addr() == PI_WR_LEN
        &&& self.status.addr() == PI_STATUS
        &&& self.dom1_lat.addr() == PI_BSD_DOM1_LAT
        &&& self.dom1_pwd.addr() == PI_BSD_DOM1_PWD
        &&& self.dom1_pgs.addr() == PI_BSD_DOM1_PGS
        &&& self.dom1_rls.addr() == PI_BSD_DOM1_RLS
        &&& self.dom2_lat.addr() == PI_BSD_DOM2_LAT
        &&& self.dom2_pwd.addr() == PI_BSD_DOM2_PWD
        &&& self.dom2_pgs.addr() == PI_BSD_DOM2_PGS
        &&& self.dom2_rls.addr() == PI_BSD_DOM2_RLS
    }

    /// The block's fixed layout at the device's base address.
    pub fn new() -> (r: RegisterBlock)
        ensures
            r.wf(),
    {
        RegisterBlock {
            dram_addr: RW::at(PI_DRAM_ADDR),
            cart_addr: RW::at(PI_CART_ADDR),
            rd_len: RW::at(PI_RD_LEN),
            wr_len: RW::at(PI_WR_LEN),
            status: DualView::at(PI_STATUS),
            dom1_lat: RW::at(PI_BSD_DOM1_LAT),
            dom1_pwd: RW::at(PI_BSD_DOM1_PWD),
            dom1_pgs: RW::at(PI_BSD_DOM1_PGS),
            dom1_rls: RW::at(PI_BSD_DOM1_RLS),
            dom2_lat: RW::at(PI_BSD_DOM2_LAT),
            dom2_pwd: RW::at(PI_BSD_DOM2_PWD),
            dom2_pgs: RW::at(PI_BSD_DOM2_PGS),
            dom2_rls: RW::at(PI_BSD_DOM2_RLS),
        }
    }
}

/// A handle on the Peripheral Interface's memory-mapped registers.
///
/// The handle itself touches no memory: every read or write names the
/// register region it acts on, and demands that the region contain the
/// cell's address.
pub struct PeripheralInterface {
    pub r: RegisterBlock,
}

impl PeripheralInterface {
    /// A handle on the device's register block at `PI_BASE`.
    pub fn new() -> (s: Self)
        ensures
            s.r.wf(),
    {
        PeripheralInterface { r: RegisterBlock::new() }
    }
}

/// The `PI_STATUS` register's bit layout as it reads back.
#[derive(Clone, Copy, PartialEq, Eq, Structural, Debug)]
pub struct StatusRegRead(pub u32);

impl StatusRegRead {
    /// Field `dma_busy`: bit 0.
    pub fn dma_busy(&self) -> (r: bool)
        ensures
            r == (field_get32(self.0, 0, 1) == 1),
    {
        extract32(self.0, 0, 1) == 1
    }

    /// Field `io_busy`: bit 1.
    pub fn io_busy(&self) -> (r: bool)
        ensures
            r == (field_get32(self.0, 1, 1) == 1),
    {
        extract32(self.0, 1, 1) == 1
    }

    /// Field `dma_error`: bit 2.
    pub fn dma_error(&self) -> (r: bool)
        ensures
            r == (field_get32(self.0, 2, 1) == 1),
    {
        extract32(self.0, 2, 1) == 1
    }

    /// Field `interrupt`: bit 3.
    pub fn interrupt(&self) -> (r: bool)
        ensures
            r == (field_get32(self.0, 3, 1) == 1),
    {
        extract32(self.0, 3, 1) == 1
    }
}

impl RegValue for StatusRegRead {
    open spec fn raw_of(self) -> u32 {
        self.0
    }

    open spec fn of_raw(raw: u32) -> Self {
        StatusRegRead(raw)
    }

    proof fn lemma_of_raw_inverse(raw: u32) {
    }

    fn to_raw(self) -> (r: u32) {
        self.0
    }

    fn from_raw(raw: u32) -> (v: Self) {
        StatusRegRead(raw)
    }
}

/// The `PI_STATUS` register's bit layout as written: request bits that do
/// not read back.
#[derive(Clone, Copy, PartialEq, Eq, Structural, Debug)]
pub struct StatusRegWrite(pub u32);

impl StatusRegWrite {
    /// Returns `self` with field `clear_interrupt` (bit 0) set to `value`.
    fn with_clear_interrupt(self, value: bool) -> (r: Self)
        ensures
            r.0 == field_set32(self.0, 0, 1, bit_of(value)),
    {
        StatusRegWrite(deposit32(self.0, 0, 1, if value { 1 } else { 0 }))
    }

    /// Returns `self` with field `reset_dma` (bit 1) set to `value`.
    fn with_reset_dma(self, value: bool) -> (r: Self)
        ensures
            r.0 == field_set32(self.0, 1, 1, bit_of(value)),
    {
        StatusRegWrite(deposit32(self.0, 1, 1, if value { 1 } else { 0 }))
    }

    /// Acknowledges (clears) a pending PI interrupt.
    pub fn clear_interrupt(self) -> (r: Self)
        ensures
            r.0 == field_set32(self.0, 0, 1, 1),
    {
        self.with_clear_interrupt(true)
    }

    /// Requests that the current DMA transfer be reset.
    pub fn reset_dma(self) -> (r: Self)
        ensures
            r.0 == field_set32(self.0, 1, 1, 1),
    {
        self.with_reset_dma(true)
    }
}

impl RegValue for StatusRegWrite {
    open spec fn raw_of(self) -> u32 {
        self.0
    }

    open spec fn of_raw(raw: u32) -> Self {
        StatusRegWrite(raw)
    }

    proof fn lemma_of_raw_inverse(raw: u32) {
    }

    fn to_raw(self) -> (r: u32) {
        self.0
    }

    fn from_raw(raw: u32) -> (v: Self) {
        StatusRegWrite(raw)
    }
}

} // verus!
