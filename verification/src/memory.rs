//! The documented address map of the memory-mapped register blocks, and a
//! synthetic byte-addressed register region that stands in for them.
//!
//! Every register is one 32-bit word on a 4-byte boundary; addresses are byte
//! addresses. An [`MmioRegion`] owns a run of such words starting at a base
//! address, so that the typed cells of this crate can be exercised and their
//! contracts stated against a concrete store.

use vstd::prelude::*;
use vstd::pervasive::VecAdditionalExecFns;

verus! {

pub const MI_BASE: u32 = 0xA430_0000;

pub const MI_MODE: u32 = MI_BASE + 0x00;

pub const MI_VERSION: u32 = MI_BASE + 0x04;

pub const MI_INTERRUPT: u32 = MI_BASE + 0x08;

pub const MI_MASK: u32 = MI_BASE + 0x0C;

pub const VI_BASE: u32 = 0xA440_0000;

pub const VI_CTRL: u32 = VI_BASE + 0x00;

pub const VI_ORIGIN: u32 = VI_BASE + 0x04;

pub const VI_WIDTH: u32 = VI_BASE + 0x08;

pub const VI_V_INTR: u32 = VI_BASE + 0x0C;

pub const VI_V_CURRENT: u32 = VI_BASE + 0x10;

pub const VI_BURST: u32 = VI_BASE + 0x14;

pub const VI_V_SYNC: u32 = VI_BASE + 0x18;

pub const VI_H_SYNC: u32 = VI_BASE + 0x1C;

pub const VI_H_SYNC_LEAP: u32 = VI_BASE + 0x20;

pub const VI_H_VIDEO: u32 = VI_BASE + 0x24;

pub const VI_V_VIDEO: u32 = VI_BASE + 0x28;

pub const VI_V_BURST: u32 = VI_BASE + 0x2C;

pub const VI_X_SCALE: u32 = VI_BASE + 0x30;

pub const VI_Y_SCALE: u32 = VI_BASE + 0x34;

pub const VI_TEST_ADDR: u32 = VI_BASE + 0x38;

pub const VI_STAGED_DATA: u32 = VI_BASE + 0x3C;

pub const AI_BASE: u32 = 0xA450_0000;

pub const AI_DRAM_ADDR: u32 = AI_BASE + 0x00;

pub const AI_LENGTH: u32 = AI_BASE + 0x04;

pub const AI_CONTROL: u32 = AI_BASE + 0x08;

pub const AI_STATUS: u32 = AI_BASE + 0x0C;

pub const AI_DAC_RATE: u32 = AI_BASE + 0x10;

pub const AI_BIT_RATE: u32 = AI_BASE + 0x14;

pub const PI_BASE: u32 = 0xA460_0000;

pub const PI_DRAM_ADDR: u32 = PI_BASE + 0x00;

pub const PI_CART_ADDR: u32 = PI_BASE + 0x04;

pub const PI_RD_LEN: u32 = PI_BASE + 0x08;

pub const PI_WR_LEN: u32 = PI_BASE + 0x0C;

pub const PI_STATUS: u32 = PI_BASE + 0x10;

pub const PI_BSD_DOM1_LAT: u32 = PI_BASE + 0x14;

pub const PI_BSD_DOM1_PWD: u32 = PI_BASE + 0x18;

pub const PI_BSD_DOM1_PGS: u32 = PI_BASE + 0x1C;

pub const PI_BSD_DOM1_RLS: u32 = PI_BASE + 0x20;

pub const PI_BSD_DOM2_LAT: u32 = PI_BASE + 0x24;

pub const PI_BSD_DOM2_PWD: u32 = PI_BASE + 0x28;

pub const PI_BSD_DOM2_PGS: u32 = PI_BASE + 0x2C;

pub const PI_BSD_DOM2_RLS: u32 = PI_BASE + 0x30;

pub const SI_BASE: u32 = 0xA480_0000;

pub const SI_DRAM_ADDR: u32 = SI_BASE + 0x00;

pub const SI_PIF_AD_RD64B: u32 = SI_BASE + 0x04;

pub const SI_PIF_AD_WR4B: u32 = SI_BASE + 0x08;

pub const SI_PIF_AD_WR64B: u32 = SI_BASE + 0x10;

pub const SI_PIF_AD_RD4B: u32 = SI_BASE + 0x14;

pub const SI_STATUS: u32 = SI_BASE + 0x18;

/// A run of 32-bit register words starting at a 4-byte-aligned byte address.
pub struct MmioRegion {
    base: u32,
    words: Vec<u32>,
}

impl MmioRegion {
    /// First byte address of the region.
    pub closed spec fn base(self) -> u32 {
        self.base
    }

    /// The register words, in address order.
    pub closed spec fn words(self) -> Seq<u32> {
        self.words@
    }

    pub open spec fn len_words(self) -> nat {
        self.words().len()
    }

    /// The base is aligned and the region ends within the address space.
    pub open spec fn wf(self) -> bool {
        self.base() % 4 == 0 && self.base() + 4 * self.len_words() <= 0x1_0000_0000
    }

    /// Byte address `addr` names a whole word of this region.
    pub open spec fn contains(self, addr: u32) -> bool {
        addr % 4 == 0 && self.base() <= addr && addr < self.base() + 4 * self.len_words()
    }

    /// The word index that byte address `addr` names.
    pub open spec fn word_index(self, addr: u32) -> int {
        (addr - self.base()) / 4
    }

    /// The register word at byte address `addr`.
    pub open spec fn word_at(self, addr: u32) -> u32 {
        self.words()[self.word_index(addr)]
    }

    /// A contained address names a word inside the region, and its index
    /// recovers the address.
    pub proof fn lemma_contains_index(self, addr: u32)
        requires
            self.wf(),
            self.contains(addr),
        ensures
            0 <= self.word_index(addr) < self.len_words(),
            self.base() + 4 * self.word_index(addr) == addr,
    {
        let d = addr - self.base();
        assert(d % 4 == 0 && 0 <= d / 4 && 4 * (d / 4) == d) by (nonlinear_arith)
            requires
                addr % 4 == 0,
                self.base() % 4 == 0,
                self.base() <= addr,
                d == addr - self.base(),
        ;
        assert(d / 4 < self.len_words()) by (nonlinear_arith)
            requires
                d < 4 * self.len_words(),
                4 * (d / 4) == d,
        ;
    }

    /// A fresh region of `len_words` zeroed register words at `base`.
    pub fn new(base: u32, len_words: usize) -> (r: MmioRegion)
        requires
            base % 4 == 0,
            base + 4 * (len_words as int) <= 0x1_0000_0000,
        ensures
            r.wf(),
            r.base() == base,
            r.len_words() == len_words,
            forall|a: u32| r.contains(a) ==> r.word_at(a) == 0,
    {
        let mut words: Vec<u32> = Vec::new();
        let mut i: usize = 0;
        while i < len_words
            invariant
                i <= len_words,
                words@.len() == i,
                forall|j: int| 0 <= j < i ==> words@[j] == 0,
            decreases len_words - i,
        {
            words.push(0);
            i += 1;
        }
        let r = MmioRegion { base, words };
        proof {
            assert forall|a: u32| r.contains(a) implies r.word_at(a) == 0 by {
                r.lemma_contains_index(a);
            }
        }
        r
    }

    /// One load of the word at byte address `addr`.
    pub fn load(&self, addr: u32) -> (r: u32)
        requires
            self.wf(),
            self.contains(addr),
        ensures
            r == self.word_at(addr),
    {
        proof {
            self.lemma_contains_index(addr);
        }
        let idx: usize = ((addr - self.base) / 4) as usize;
        self.words[idx]
    }

    /// One store of `value` to the word at byte address `addr`; every other
    /// word keeps its value.
    pub fn store(&mut self, addr: u32, value: u32)
        requires
            old(self).wf(),
            old(self).contains(addr),
        ensures
            final(self).wf(),
            final(self).base() == old(self).base(),
            final(self).len_words() == old(self).len_words(),
            final(self).words() == old(self).words().update(old(self).word_index(addr), value),
            final(self).word_at(addr) == value,
            forall|a: u32|
                old(self).contains(a) && a != addr ==> final(self).word_at(a) == old(self).word_at(a),
    {
        proof {
            self.lemma_contains_index(addr);
        }
        let idx: usize = ((addr - self.base) / 4) as usize;
        self.words.set(idx, value);
        proof {
            assert forall|a: u32| old(self).contains(a) && a != addr implies self.word_at(a) == old(self).word_at(a) by {
                old(self).lemma_contains_index(a);
                old(self).lemma_contains_index(addr);
            }
        }
    }
}

} // verus!
