//! CPU - Coprocessor 0 (system control).

use vstd::prelude::*;

use crate::field::{bit_of, extract32, deposit32, field_get32, field_set32, lemma_get32_fits_u8, lemma_get32_fits_u16, extract64, deposit64, field_get64, field_set64, lemma_get64_fits_u8, lemma_get64_fits_u32, lemma_u64_halves};
use vstd::pervasive::VecAdditionalExecFns;

verus! {

/// The CP0 (system control coprocessor) register file: TLB, exception and
/// cache control state.
///
/// Registers are reached by index through dedicated instructions, not by
/// address; a wide (64-bit) transfer moves two 32-bit halves and is not
/// atomic across them — the same hazard class as an interrupted
/// read-modify-write on a memory-mapped register.
pub struct Cp0 {
    regs: Vec<u64>,
}

impl Cp0 {
    /// The 64-bit value of register `i`.
    pub closed spec fn reg(self, i: int) -> u64 {
        self.regs@[i]
    }

    /// The file holds the 32 architecturally addressable registers.
    pub closed spec fn wf(self) -> bool {
        self.regs@.len() == 32
    }

    /// A register file with every register zero.
    pub fn new() -> (c: Cp0)
        ensures
            c.wf(),
            forall|i: int| 0 <= i < 32 ==> c.reg(i) == 0,
    {
        let mut regs: Vec<u64> = Vec::new();
        let mut i: usize = 0;
        while i < 32
            invariant
                i <= 32,
                regs@.len() == i,
                forall|j: int| 0 <= j < i ==> regs@[j] == 0,
            decreases 32 - i,
        {
            regs.push(0);
            i += 1;
        }
        Cp0 { regs }
    }

    /// One privileged 32-bit read of register `INDEX`: its low word.
    pub fn read_u32<const INDEX: u32>(&self) -> (r: u32)
        requires
            self.wf(),
            INDEX < 32,
        ensures
            r == self.reg(INDEX as int) as u32,
    {
        #[verifier::truncate] (self.regs[INDEX as usize] as u32)
    }

    /// The high word of register `INDEX`, as one more 32-bit transfer.
    fn read_hi<const INDEX: u32>(&self) -> (r: u32)
        requires
            self.wf(),
            INDEX < 32,
        ensures
            r == (self.reg(INDEX as int) >> 32) as u32,
    {
        #[verifier::truncate] ((self.regs[INDEX as usize] >> 32) as u32)
    }

    /// One privileged 64-bit read of register `INDEX`, composed of two
    /// narrower transfers combined high/low.
    pub fn read_u64<const INDEX: u32>(&self) -> (r: u64)
        requires
            self.wf(),
            INDEX < 32,
        ensures
            r == self.reg(INDEX as int),
    {
        let lo: u32 = self.read_u32::<INDEX>();
        let hi: u32 = self.read_hi::<INDEX>();
        proof {
            lemma_u64_halves(self.reg(INDEX as int));
        }
        ((hi as u64) << 32) | (lo as u64)
    }

    /// One privileged 32-bit write of register `INDEX`; the register takes
    /// the written word.
    pub fn write_u32<const INDEX: u32>(&mut self, value: u32)
        requires
            old(self).wf(),
            INDEX < 32,
        ensures
            final(self).wf(),
            final(self).reg(INDEX as int) == value as u64,
            forall|i: int|
                0 <= i < 32 && i != INDEX as int ==> final(self).reg(i) == old(self).reg(i),
    {
        self.regs.set(INDEX as usize, value as u64);
    }

    /// One privileged 64-bit write of register `INDEX`: the value is
    /// decomposed into two words and recombined through a temporary.
    pub fn write_u64<const INDEX: u32>(&mut self, value: u64)
        requires
            old(self).wf(),
            INDEX < 32,
        ensures
            final(self).wf(),
            final(self).reg(INDEX as int) == value,
            forall|i: int|
                0 <= i < 32 && i != INDEX as int ==> final(self).reg(i) == old(self).reg(i),
    {
        let lo: u32 = #[verifier::truncate] (value as u32);
        let hi: u32 = #[verifier::truncate] ((value >> 32) as u32);
        let combined: u64 = ((hi as u64) << 32) | (lo as u64);
        proof {
            lemma_u64_halves(value);
        }
        self.regs.set(INDEX as usize, combined);
    }

    /// One 32-bit read of register `INDEX`, `func` applied to the word read,
    /// one 32-bit write of the result. The two transfers are not atomic: a
    /// write to the same register from another execution context between
    /// them is lost.
    pub fn modify_u32<const INDEX: u32, F: FnOnce(u32) -> u32>(&mut self, func: F)
        requires
            old(self).wf(),
            INDEX < 32,
            call_requires(func, (old(self).reg(INDEX as int) as u32,)),
        ensures
            final(self).wf(),
            exists|m: u32|
                #[trigger] call_ensures(func, (old(self).reg(INDEX as int) as u32,), m) && final(self).reg(
                    INDEX as int,
                ) == m as u64,
            forall|i: int|
                0 <= i < 32 && i != INDEX as int ==> final(self).reg(i) == old(self).reg(i),
    {
        let v = self.read_u32::<INDEX>();
        let v2 = func(v);
        self.write_u32::<INDEX>(v2);
    }

    /// One 64-bit read of register `INDEX`, `func` applied, one 64-bit
    /// write of the result; not atomic, as [`Self::modify_u32`].
    pub fn modify_u64<const INDEX: u32, F: FnOnce(u64) -> u64>(&mut self, func: F)
        requires
            old(self).wf(),
            INDEX < 32,
            call_requires(func, (old(self).reg(INDEX as int),)),
        ensures
            final(self).wf(),
            exists|m: u64|
                #[trigger] call_ensures(func, (old(self).reg(INDEX as int),), m) && final(self).reg(
                    INDEX as int,
                ) == m,
            forall|i: int|
                0 <= i < 32 && i != INDEX as int ==> final(self).reg(i) == old(self).reg(i),
    {
        let v = self.read_u64::<INDEX>();
        let v2 = func(v);
        self.write_u64::<INDEX>(v2);
    }

    /// CP0 register 0, `index`, decoded.
    pub fn index(&self) -> (r: IndexReg)
        requires
            self.wf(),
        ensures
            r.0 == self.reg(0) as u32,
    {
        IndexReg(self.read_u32::<0>())
    }

    /// Writes CP0 register 0, `index`.
    pub fn set_index(&mut self, value: IndexReg)
        requires
            old(self).wf(),
        ensures
            final(self).wf(),
            final(self).reg(0) == value.0 as u64,
            forall|i: int| 0 <= i < 32 && i != 0 ==> final(self).reg(i) == old(self).reg(i),
    {
        self.write_u32::<0>(value.0);
    }

    /// CP0 register 1, `random`, decoded.
    pub fn random(&self) -> (r: RandomReg)
        requires
            self.wf(),
        ensures
            r.0 == self.reg(1) as u32,
    {
        RandomReg(self.read_u32::<1>())
    }

    /// Writes CP0 register 1, `random`.
    pub fn set_random(&mut self, value: RandomReg)
        requires
            old(self).wf(),
        ensures
            final(self).wf(),
            final(self).reg(1) == value.0 as u64,
            forall|i: int| 0 <= i < 32 && i != 1 ==> final(self).reg(i) == old(self).reg(i),
    {
        self.write_u32::<1>(value.0);
    }

    /// CP0 register 2, `entrylo0`, decoded.
    pub fn entrylo0(&self) -> (r: EntryLoReg)
        requires
            self.wf(),
        ensures
            r.0 == self.reg(2) as u32,
    {
        EntryLoReg(self.read_u32::<2>())
    }

    /// Writes CP0 register 2, `entrylo0`.
    pub fn set_entrylo0(&mut self, value: EntryLoReg)
        requires
            old(self).wf(),
        ensures
            final(self).wf(),
            final(self).reg(2) == value.0 as u64,
            forall|i: int| 0 <= i < 32 && i != 2 ==> final(self).reg(i) == old(self).reg(i),
    {
        self.write_u32::<2>(value.0);
    }

    /// CP0 register 3, `entrylo1`, decoded.
    pub fn entrylo1(&self) -> (r: EntryLoReg)
        requires
            self.wf(),
        ensures
            r.0 == self.reg(3) as u32,
    {
        EntryLoReg(self.read_u32::<3>())
    }

    /// Writes CP0 register 3, `entrylo1`.
    pub fn set_entrylo1(&mut self, value: EntryLoReg)
        requires
            old(self).wf(),
        ensures
            final(self).wf(),
            final(self).reg(3) == value.0 as u64,
            forall|i: int| 0 <= i < 32 && i != 3 ==> final(self).reg(i) == old(self).reg(i),
    {
        self.write_u32::<3>(value.0);
    }

    /// CP0 register 4, `context`, decoded.
    pub fn context(&self) -> (r: ContextReg)
        requires
            self.wf(),
        ensures
            r.0 == self.reg(4),
    {
        ContextReg(self.read_u64::<4>())
    }

    /// Writes CP0 register 4, `context`.
    pub fn set_context(&mut self, value: ContextReg)
        requires
            old(self).wf(),
        ensures
            final(self).wf(),
            final(self).reg(4) == value.0,
            forall|i: int| 0 <= i < 32 && i != 4 ==> final(self).reg(i) == old(self).reg(i),
    {
        self.write_u64::<4>(value.0);
    }

    /// CP0 register 5, `pagemask`, decoded.
    pub fn pagemask(&self) -> (r: PageMaskReg)
        requires
            self.wf(),
        ensures
            r.0 == self.reg(5) as u32,
    {
        PageMaskReg(self.read_u32::<5>())
    }

    /// Writes CP0 register 5, `pagemask`.
    pub fn set_pagemask(&mut self, value: PageMaskReg)
        requires
            old(self).wf(),
        ensures
            final(self).wf(),
            final(self).reg(5) == value.0 as u64,
            forall|i: int| 0 <= i < 32 && i != 5 ==> final(self).reg(i) == old(self).reg(i),
    {
        self.write_u32::<5>(value.0);
    }

    /// CP0 register 6, `wired`, decoded.
    pub fn wired(&self) -> (r: WiredReg)
        requires
            self.wf(),
        ensures
            r.0 == self.reg(6) as u32,
    {
        WiredReg(self.read_u32::<6>())
    }

    /// Writes CP0 register 6, `wired`.
    pub fn set_wired(&mut self, value: WiredReg)
        requires
            old(self).wf(),
        ensures
            final(self).wf(),
            final(self).reg(6) == value.0 as u64,
            forall|i: int| 0 <= i < 32 && i != 6 ==> final(self).reg(i) == old(self).reg(i),
    {
        self.write_u32::<6>(value.0);
    }

    /// CP0 register 8, `badvaddr`, decoded.
    pub fn badvaddr(&self) -> (r: BadVAddrReg)
        requires
            self.wf(),
        ensures
            r.0 == self.reg(8),
    {
        BadVAddrReg(self.read_u64::<8>())
    }

    /// CP0 register 9, `count`.
    pub fn count(&self) -> (r: u32)
        requires
            self.wf(),
        ensures
            r == self.reg(9) as u32,
    {
        self.read_u32::<9>()
    }

    /// Writes CP0 register 9, `count`.
    pub fn set_count(&mut self, value: u32)
        requires
            old(self).wf(),
        ensures
            final(self).wf(),
            final(self).reg(9) == value as u64,
            forall|i: int| 0 <= i < 32 && i != 9 ==> final(self).reg(i) == old(self).reg(i),
    {
        self.write_u32::<9>(value);
    }

    /// CP0 register 10, `entryhi`, decoded.
    pub fn entryhi(&self) -> (r: EntryHiReg)
        requires
            self.wf(),
        ensures
            r.0 == self.reg(10),
    {
        EntryHiReg(self.read_u64::<10>())
    }

    /// Writes CP0 register 10, `entryhi`.
    pub fn set_entryhi(&mut self, value: EntryHiReg)
        requires
            old(self).wf(),
        ensures
            final(self).wf(),
            final(self).reg(10) == value.0,
            forall|i: int| 0 <= i < 32 && i != 10 ==> final(self).reg(i) == old(self).reg(i),
    {
        self.write_u64::<10>(value.0);
    }

    /// CP0 register 11, `compare`.
    pub fn compare(&self) -> (r: u32)
        requires
            self.wf(),
        ensures
            r == self.reg(11) as u32,
    {
        self.read_u32::<11>()
    }

    /// Writes CP0 register 11, `compare`.
    pub fn set_compare(&mut self, value: u32)
        requires
            old(self).wf(),
        ensures
            final(self).wf(),
            final(self).reg(11) == value as u64,
            forall|i: int| 0 <= i < 32 && i != 11 ==> final(self).reg(i) == old(self).reg(i),
    {
        self.write_u32::<11>(value);
    }

    /// CP0 register 12, `status`, decoded.
    pub fn status(&self) -> (r: StatusReg)
        requires
            self.wf(),
        ensures
            r.0 == self.reg(12) as u32,
    {
        StatusReg(self.read_u32::<12>())
    }

    /// Writes CP0 register 12, `status`.
    pub fn set_status(&mut self, value: StatusReg)
        requires
            old(self).wf(),
        ensures
            final(self).wf(),
            final(self).reg(12) == value.0 as u64,
            forall|i: int| 0 <= i < 32 && i != 12 ==> final(self).reg(i) == old(self).reg(i),
    {
        self.write_u32::<12>(value.0);
    }

    /// CP0 register 13, `cause`, decoded.
    pub fn cause(&self) -> (r: CauseReg)
        requires
            self.wf(),
        ensures
            r.0 == self.reg(13) as u32,
    {
        CauseReg(self.read_u32::<13>())
    }

    /// Writes CP0 register 13, `cause`.
    pub fn set_cause(&mut self, value: CauseReg)
        requires
            old(self).wf(),
        ensures
            final(self).wf(),
            final(self).reg(13) == value.0 as u64,
            forall|i: int| 0 <= i < 32 && i != 13 ==> final(self).reg(i) == old(self).reg(i),
    {
        self.write_u32::<13>(value.0);
    }

    /// CP0 register 14, `exception_pc`, decoded.
    pub fn exception_pc(&self) -> (r: ExceptionPcReg)
        requires
            self.wf(),
        ensures
            r.0 == self.reg(14),
    {
        ExceptionPcReg(self.read_u64::<14>())
    }

    /// Writes CP0 register 14, `exception_pc`.
    pub fn set_exception_pc(&mut self, value: ExceptionPcReg)
        requires
            old(self).wf(),
        ensures
            final(self).wf(),
            final(self).reg(14) == value.0,
            forall|i: int| 0 <= i < 32 && i != 14 ==> final(self).reg(i) == old(self).reg(i),
    {
        self.write_u64::<14>(value.0);
    }

    /// CP0 register 15, `processor_revision_id`, decoded.
    pub fn processor_revision_id(&self) -> (r: ProcessorRevisionIdReg)
        requires
            self.wf(),
        ensures
            r.0 == self.reg(15) as u32,
    {
        ProcessorRevisionIdReg(self.read_u32::<15>())
    }

    /// CP0 register 16, `config`, decoded.
    pub fn config(&self) -> (r: ConfigReg)
        requires
            self.wf(),
        ensures
            r.0 == self.reg(16) as u32,
    {
        ConfigReg(self.read_u32::<16>())
    }

    /// Writes CP0 register 16, `config`.
    pub fn set_config(&mut self, value: ConfigReg)
        requires
            old(self).wf(),
        ensures
            final(self).wf(),
            final(self).reg(16) == value.0 as u64,
            forall|i: int| 0 <= i < 32 && i != 16 ==> final(self).reg(i) == old(self).reg(i),
    {
        self.write_u32::<16>(value.0);
    }

    /// CP0 register 17, `load_linked_address`.
    pub fn load_linked_address(&self) -> (r: u32)
        requires
            self.wf(),
        ensures
            r == self.reg(17) as u32,
    {
        self.read_u32::<17>()
    }

    /// Writes CP0 register 17, `load_linked_address`.
    pub fn set_load_linked_address(&mut self, value: u32)
        requires
            old(self).wf(),
        ensures
            final(self).wf(),
            final(self).reg(17) == value as u64,
            forall|i: int| 0 <= i < 32 && i != 17 ==> final(self).reg(i) == old(self).reg(i),
    {
        self.write_u32::<17>(value);
    }

    /// CP0 register 18, `watchlo`, decoded.
    pub fn watchlo(&self) -> (r: WatchLoReg)
        requires
            self.wf(),
        ensures
            r.0 == self.reg(18) as u32,
    {
        WatchLoReg(self.read_u32::<18>())
    }

    /// Writes CP0 register 18, `watchlo`.
    pub fn set_watchlo(&mut self, value: WatchLoReg)
        requires
            old(self).wf(),
        ensures
            final(self).wf(),
            final(self).reg(18) == value.0 as u64,
            forall|i: int| 0 <= i < 32 && i != 18 ==> final(self).reg(i) == old(self).reg(i),
    {
        self.write_u32::<18>(value.0);
    }

    /// CP0 register 19, `watchhi`, decoded.
    pub fn watchhi(&self) -> (r: WatchHiReg)
        requires
            self.wf(),
        ensures
            r.0 == self.reg(19) as u32,
    {
        WatchHiReg(self.read_u32::<19>())
    }

    /// Writes CP0 register 19, `watchhi`.
    pub fn set_watchhi(&mut self, value: WatchHiReg)
        requires
            old(self).wf(),
        ensures
            final(self).wf(),
            final(self).reg(19) == value.0 as u64,
            forall|i: int| 0 <= i < 32 && i != 19 ==> final(self).reg(i) == old(self).reg(i),
    {
        self.write_u32::<19>(value.0);
    }

    /// CP0 register 20, `xcontext`, decoded.
    pub fn xcontext(&self) -> (r: XContextReg)
        requires
            self.wf(),
        ensures
            r.0 == self.reg(20),
    {
        XContextReg(self.read_u64::<20>())
    }

    /// Writes CP0 register 20, `xcontext`.
    pub fn set_xcontext(&mut self, value: XContextReg)
        requires
            old(self).wf(),
        ensures
            final(self).wf(),
            final(self).reg(20) == value.0,
            forall|i: int| 0 <= i < 32 && i != 20 ==> final(self).reg(i) == old(self).reg(i),
    {
        self.write_u64::<20>(value.0);
    }

    /// CP0 register 26, `parity_error`, decoded.
    pub fn parity_error(&self) -> (r: ParityErrorReg)
        requires
            self.wf(),
        ensures
            r.0 == self.reg(26) as u32,
    {
        ParityErrorReg(self.read_u32::<26>())
    }

    /// Writes CP0 register 26, `parity_error`.
    pub fn set_parity_error(&mut self, value: ParityErrorReg)
        requires
            old(self).wf(),
        ensures
            final(self).wf(),
            final(self).reg(26) == value.0 as u64,
            forall|i: int| 0 <= i < 32 && i != 26 ==> final(self).reg(i) == old(self).reg(i),
    {
        self.write_u32::<26>(value.0);
    }

    /// CP0 register 28, `taglo`, decoded.
    pub fn taglo(&self) -> (r: TagLoReg)
        requires
            self.wf(),
        ensures
            r.0 == self.reg(28) as u32,
    {
        TagLoReg(self.read_u32::<28>())
    }

    /// Writes CP0 register 28, `taglo`.
    pub fn set_taglo(&mut self, value: TagLoReg)
        requires
            old(self).wf(),
        ensures
            final(self).wf(),
            final(self).reg(28) == value.0 as u64,
            forall|i: int| 0 <= i < 32 && i != 28 ==> final(self).reg(i) == old(self).reg(i),
    {
        self.write_u32::<28>(value.0);
    }

    /// CP0 register 30, `error_exception_pc`, decoded.
    pub fn error_exception_pc(&self) -> (r: ErrorExceptionPcReg)
        requires
            self.wf(),
        ensures
            r.0 == self.reg(30),
    {
        ErrorExceptionPcReg(self.read_u64::<30>())
    }

    /// Writes CP0 register 30, `error_exception_pc`.
    pub fn set_error_exception_pc(&mut self, value: ErrorExceptionPcReg)
        requires
            old(self).wf(),
        ensures
            final(self).wf(),
            final(self).reg(30) == value.0,
            forall|i: int| 0 <= i < 32 && i != 30 ==> final(self).reg(i) == old(self).reg(i),
    {
        self.write_u64::<30>(value.0);
    }
}

/// Cache coherency algorithms of the TLB and `config` registers.
#[derive(Clone, Copy, PartialEq, Eq, Structural, Debug)]
pub enum CacheAlgorithm {
    Uncached,
    Cached,
}

impl CacheAlgorithm {
    /// The encoding of this variant.
    pub open spec fn bits(self) -> u8 {
        match self {
            CacheAlgorithm::Uncached => 2,
            CacheAlgorithm::Cached => 3,
        }
    }

    /// The variant a raw bit pattern decodes to. Decoding is total:
    /// every unmapped pattern decodes to `CacheAlgorithm::Cached`, since the
    /// hardware may present encodings outside the documented set.
    pub open spec fn of_bits(bits: u8) -> CacheAlgorithm {
        if bits == 2 {
            CacheAlgorithm::Uncached
        } else {
            CacheAlgorithm::Cached
        }
    }

    pub fn to_bits(self) -> (r: u8)
        ensures
            r == self.bits(),
    {
        match self {
            CacheAlgorithm::Uncached => 2,
            CacheAlgorithm::Cached => 3,
        }
    }

    pub fn from_bits(bits: u8) -> (r: CacheAlgorithm)
        ensures
            r == CacheAlgorithm::of_bits(bits),
    {
        if bits == 2 {
            CacheAlgorithm::Uncached
        } else {
            CacheAlgorithm::Cached
        }
    }
}

/// Law: encoding any defined variant and decoding the result returns the
/// same variant.
pub proof fn lemma_cache_algorithm_round_trip(v: CacheAlgorithm)
    ensures
        CacheAlgorithm::of_bits(v.bits()) == v,
{
}

/// TLB page sizes of the `pagemask` register's comparison mask.
#[derive(Clone, Copy, PartialEq, Eq, Structural, Debug)]
pub enum PageSize {
    KB4,
    KB16,
    KB64,
    KB256,
    MB1,
    MB4,
    MB16,
    Undefined,
}

impl PageSize {
    /// The encoding of this variant.
    pub open spec fn bits(self) -> u16 {
        match self {
            PageSize::KB4 => 0,
            PageSize::KB16 => 3,
            PageSize::KB64 => 15,
            PageSize::KB256 => 63,
            PageSize::MB1 => 255,
            PageSize::MB4 => 1023,
            PageSize::MB16 => 4095,
            PageSize::Undefined => 4096,
        }
    }

    /// The variant a raw bit pattern decodes to. Decoding is total:
    /// every unmapped pattern decodes to `PageSize::Undefined`, since the
    /// hardware may present encodings outside the documented set.
    pub open spec fn of_bits(bits: u16) -> PageSize {
        if bits == 0 {
            PageSize::KB4
        } else if bits == 3 {
            PageSize::KB16
        } else if bits == 15 {
            PageSize::KB64
        } else if bits == 63 {
            PageSize::KB256
        } else if bits == 255 {
            PageSize::MB1
        } else if bits == 1023 {
            PageSize::MB4
        } else if bits == 4095 {
            PageSize::MB16
        } else {
            PageSize::Undefined
        }
    }

    pub fn to_bits(self) -> (r: u16)
        ensures
            r == self.bits(),
    {
        match self {
            PageSize::KB4 => 0,
            PageSize::KB16 => 3,
            PageSize::KB64 => 15,
            PageSize::KB256 => 63,
            PageSize::MB1 => 255,
            PageSize::MB4 => 1023,
            PageSize::MB16 => 4095,
            PageSize::Undefined => 4096,
        }
    }

    pub fn from_bits(bits: u16) -> (r: PageSize)
        ensures
            r == PageSize::of_bits(bits),
    {
        if bits == 0 {
            PageSize::KB4
        } else if bits == 3 {
            PageSize::KB16
        } else if bits == 15 {
            PageSize::KB64
        } else if bits == 63 {
            PageSize::KB256
        } else if bits == 255 {
            PageSize::MB1
        } else if bits == 1023 {
            PageSize::MB4
        } else if bits == 4095 {
            PageSize::MB16
        } else {
            PageSize::Undefined
        }
    }
}

/// Law: encoding any defined variant and decoding the result returns the
/// same variant.
pub proof fn lemma_page_size_round_trip(v: PageSize)
    ensures
        PageSize::of_bits(v.bits()) == v,
{
}

/// Virtual address regions matched against the top bits of a 64-bit
/// virtual address.
#[derive(Clone, Copy, PartialEq, Eq, Structural, Debug)]
pub enum VAddrRegion {
    User,
    Supervisor,
    Unknown,
    Kernel,
}

impl VAddrRegion {
    /// The encoding of this variant.
    pub open spec fn bits(self) -> u8 {
        match self {
            VAddrRegion::User => 0,
            VAddrRegion::Supervisor => 1,
            VAddrRegion::Unknown => 2,
            VAddrRegion::Kernel => 3,
        }
    }

    /// The variant a raw bit pattern decodes to. Decoding is total:
    /// every unmapped pattern decodes to `VAddrRegion::Unknown`, since the
    /// hardware may present encodings outside the documented set.
    pub open spec fn of_bits(bits: u8) -> VAddrRegion {
        if bits == 0 {
            VAddrRegion::User
        } else if bits == 1 {
            VAddrRegion::Supervisor
        } else if bits == 3 {
            VAddrRegion::Kernel
        } else {
            VAddrRegion::Unknown
        }
    }

    pub fn to_bits(self) -> (r: u8)
        ensures
            r == self.bits(),
    {
        match self {
            VAddrRegion::User => 0,
            VAddrRegion::Supervisor => 1,
            VAddrRegion::Unknown => 2,
            VAddrRegion::Kernel => 3,
        }
    }

    pub fn from_bits(bits: u8) -> (r: VAddrRegion)
        ensures
            r == VAddrRegion::of_bits(bits),
    {
        if bits == 0 {
            VAddrRegion::User
        } else if bits == 1 {
            VAddrRegion::Supervisor
        } else if bits == 3 {
            VAddrRegion::Kernel
        } else {
            VAddrRegion::Unknown
        }
    }
}

/// Law: encoding any defined variant and decoding the result returns the
/// same variant.
pub proof fn lemma_v_addr_region_round_trip(v: VAddrRegion)
    ensures
        VAddrRegion::of_bits(v.bits()) == v,
{
}

/// Exception causes reported in the `cause` register.
#[derive(Clone, Copy, PartialEq, Eq, Structural, Debug)]
pub enum ExceptionCode {
    Interrupt,
    TlbModification,
    TlbMissOnLoad,
    TlbMissOnStore,
    AddressErrorOnLoad,
    AddressErrorOnStore,
    InstructionBusError,
    DataBusError,
    Syscall,
    Breakpoint,
    ReservedInstruction,
    CoprocessorUnusable,
    ArithmeticOverflow,
    Trap,
    FloatingPoint,
    Watch,
    Reserved,
}

impl ExceptionCode {
    /// The encoding of this variant.
    pub open spec fn bits(self) -> u8 {
        match self {
            ExceptionCode::Interrupt => 0,
            ExceptionCode::TlbModification => 1,
            ExceptionCode::TlbMissOnLoad => 2,
            ExceptionCode::TlbMissOnStore => 3,
            ExceptionCode::AddressErrorOnLoad => 4,
            ExceptionCode::AddressErrorOnStore => 5,
            ExceptionCode::InstructionBusError => 6,
            ExceptionCode::DataBusError => 7,
            ExceptionCode::Syscall => 8,
            ExceptionCode::Breakpoint => 9,
            ExceptionCode::ReservedInstruction => 10,
            ExceptionCode::CoprocessorUnusable => 11,
            ExceptionCode::ArithmeticOverflow => 12,
            ExceptionCode::Trap => 13,
            ExceptionCode::FloatingPoint => 15,
            ExceptionCode::Watch => 23,
            ExceptionCode::Reserved => 24,
        }
    }

    /// The variant a raw bit pattern decodes to. Decoding is total:
    /// every unmapped pattern decodes to `ExceptionCode::Reserved`, since the
    /// hardware may present encodings outside the documented set.
    pub open spec fn of_bits(bits: u8) -> ExceptionCode {
        if bits == 0 {
            ExceptionCode::Interrupt
        } else if bits == 1 {
            ExceptionCode::TlbModification
        } else if bits == 2 {
            ExceptionCode::TlbMissOnLoad
        } else if bits == 3 {
            ExceptionCode::TlbMissOnStore
        } else if bits == 4 {
            ExceptionCode::AddressErrorOnLoad
        } else if bits == 5 {
            ExceptionCode::AddressErrorOnStore
        } else if bits == 6 {
            ExceptionCode::InstructionBusError
        } else if bits == 7 {
            ExceptionCode::DataBusError
        } else if bits == 8 {
            ExceptionCode::Syscall
        } else if bits == 9 {
            ExceptionCode::Breakpoint
        } else if bits == 10 {
            ExceptionCode::ReservedInstruction
        } else if bits == 11 {
            ExceptionCode::CoprocessorUnusable
        } else if bits == 12 {
            ExceptionCode::ArithmeticOverflow
        } else if bits == 13 {
            ExceptionCode::Trap
        } else if bits == 15 {
            ExceptionCode::FloatingPoint
        } else if bits == 23 {
            ExceptionCode::Watch
        } else {
            ExceptionCode::Reserved
        }
    }

    pub fn to_bits(self) -> (r: u8)
        ensures
            r == self.bits(),
    {
        match self {
            ExceptionCode::Interrupt => 0,
            ExceptionCode::TlbModification => 1,
            ExceptionCode::TlbMissOnLoad => 2,
            ExceptionCode::TlbMissOnStore => 3,
            ExceptionCode::AddressErrorOnLoad => 4,
            ExceptionCode::AddressErrorOnStore => 5,
            ExceptionCode::InstructionBusError => 6,
            ExceptionCode::DataBusError => 7,
            ExceptionCode::Syscall => 8,
            ExceptionCode::Breakpoint => 9,
            ExceptionCode::ReservedInstruction => 10,
            ExceptionCode::CoprocessorUnusable => 11,
            ExceptionCode::ArithmeticOverflow => 12,
            ExceptionCode::Trap => 13,
            ExceptionCode::FloatingPoint => 15,
            ExceptionCode::Watch => 23,
            ExceptionCode::Reserved => 24,
        }
    }

    pub fn from_bits(bits: u8) -> (r: ExceptionCode)
        ensures
            r == ExceptionCode::of_bits(bits),
    {
        if bits == 0 {
            ExceptionCode::Interrupt
        } else if bits == 1 {
            ExceptionCode::TlbModification
        } else if bits == 2 {
            ExceptionCode::TlbMissOnLoad
        } else if bits == 3 {
            ExceptionCode::TlbMissOnStore
        } else if bits == 4 {
            ExceptionCode::AddressErrorOnLoad
        } else if bits == 5 {
            ExceptionCode::AddressErrorOnStore
        } else if bits == 6 {
            ExceptionCode::InstructionBusError
        } else if bits == 7 {
            ExceptionCode::DataBusError
        } else if bits == 8 {
            ExceptionCode::Syscall
        } else if bits == 9 {
            ExceptionCode::Breakpoint
        } else if bits == 10 {
            ExceptionCode::ReservedInstruction
        } else if bits == 11 {
            ExceptionCode::CoprocessorUnusable
        } else if bits == 12 {
            ExceptionCode::ArithmeticOverflow
        } else if bits == 13 {
            ExceptionCode::Trap
        } else if bits == 15 {
            ExceptionCode::FloatingPoint
        } else if bits == 23 {
            ExceptionCode::Watch
        } else {
            ExceptionCode::Reserved
        }
    }
}

/// Law: encoding any defined variant and decoding the result returns the
/// same variant.
pub proof fn lemma_exception_code_round_trip(v: ExceptionCode)
    ensures
        ExceptionCode::of_bits(v.bits()) == v,
{
}

/// The `index` register: selects a TLB entry for reads and writes.
#[derive(Clone, Copy, PartialEq, Eq, Structural, Debug)]
pub struct IndexReg(pub u32);

impl IndexReg {
    /// Field `index`: bits 0..=5.
    pub fn index(&self) -> (r: u8)
        ensures
            r as u32 == field_get32(self.0, 0, 6),
    {
        proof {
            lemma_get32_fits_u8(self.0, 0, 6);
        }
        extract32(self.0, 0, 6) as u8
    }

    /// Returns `self` with field `index` (bits 0..=5) set to `value`.
    pub fn with_index(self, value: u8) -> (r: Self)
        ensures
            r.0 == field_set32(self.0, 0, 6, value as u32),
    {
        IndexReg(deposit32(self.0, 0, 6, value as u32))
    }

    /// Field `probe`: bit 31.
    pub fn probe(&self) -> (r: bool)
        ensures
            r == (field_get32(self.0, 31, 1) == 1),
    {
        extract32(self.0, 31, 1) == 1
    }

    /// Returns `self` with field `probe` (bit 31) set to `value`.
    pub fn with_probe(self, value: bool) -> (r: Self)
        ensures
            r.0 == field_set32(self.0, 31, 1, bit_of(value)),
    {
        IndexReg(deposit32(self.0, 31, 1, if value { 1 } else { 0 }))
    }
}

/// The `random` register: a pseudo-random TLB entry index.
#[derive(Clone, Copy, PartialEq, Eq, Structural, Debug)]
pub struct RandomReg(pub u32);

impl RandomReg {
    /// Field `random`: bits 0..=5.
    pub fn random(&self) -> (r: u8)
        ensures
            r as u32 == field_get32(self.0, 0, 6),
    {
        proof {
            lemma_get32_fits_u8(self.0, 0, 6);
        }
        extract32(self.0, 0, 6) as u8
    }
}

/// The page frame number and configuration bits of a TLB entry.
/// EntryLo0 is used for even virtual pages, EntryLo1 for odd ones;
/// both registers share this format.
#[derive(Clone, Copy, PartialEq, Eq, Structural, Debug)]
pub struct EntryLoReg(pub u32);

impl EntryLoReg {
    /// Field `global`: bit 0.
    pub fn global(&self) -> (r: bool)
        ensures
            r == (field_get32(self.0, 0, 1) == 1),
    {
        extract32(self.0, 0, 1) == 1
    }

    /// Returns `self` with field `global` (bit 0) set to `value`.
    pub fn with_global(self, value: bool) -> (r: Self)
        ensures
            r.0 == field_set32(self.0, 0, 1, bit_of(value)),
    {
        EntryLoReg(deposit32(self.0, 0, 1, if value { 1 } else { 0 }))
    }

    /// Field `valid`: bit 1.
    pub fn valid(&self) -> (r: bool)
        ensures
            r == (field_get32(self.0, 1, 1) == 1),
    {
        extract32(self.0, 1, 1) == 1
    }

    /// Returns `self` with field `valid` (bit 1) set to `value`.
    pub fn with_valid(self, value: bool) -> (r: Self)
        ensures
            r.0 == field_set32(self.0, 1, 1, bit_of(value)),
    {
        EntryLoReg(deposit32(self.0, 1, 1, if value { 1 } else { 0 }))
    }

    /// Field `dirty`: bit 2.
    pub fn dirty(&self) -> (r: bool)
        ensures
            r == (field_get32(self.0, 2, 1) == 1),
    {
        extract32(self.0, 2, 1) == 1
    }

    /// Returns `self` with field `dirty` (bit 2) set to `value`.
    pub fn with_dirty(self, value: bool) -> (r: Self)
        ensures
            r.0 == field_set32(self.0, 2, 1, bit_of(value)),
    {
        EntryLoReg(deposit32(self.0, 2, 1, if value { 1 } else { 0 }))
    }

    /// Field `cache_algorithm`: bits 3..=5.
    pub fn cache_algorithm(&self) -> (r: CacheAlgorithm)
        ensures
            r == CacheAlgorithm::of_bits(field_get32(self.0, 3, 3) as u8),
    {
        proof {
            lemma_get32_fits_u8(self.0, 3, 3);
        }
        CacheAlgorithm::from_bits(extract32(self.0, 3, 3) as u8)
    }

    /// Returns `self` with field `cache_algorithm` (bits 3..=5) set to `value`.
    pub fn with_cache_algorithm(self, value: CacheAlgorithm) -> (r: Self)
        ensures
            r.0 == field_set32(self.0, 3, 3, value.bits() as u32),
    {
        EntryLoReg(deposit32(self.0, 3, 3, value.to_bits() as u32))
    }

    /// Field `page_frame_number`: bits 6..=29.
    pub fn page_frame_number(&self) -> (r: u32)
        ensures
            r == field_get32(self.0, 6, 24),
    {
        extract32(self.0, 6, 24)
    }

    /// Returns `self` with field `page_frame_number` (bits 6..=29) set to `value`.
    pub fn with_page_frame_number(self, value: u32) -> (r: Self)
        ensures
            r.0 == field_set32(self.0, 6, 24, value),
    {
        EntryLoReg(deposit32(self.0, 6, 24, value))
    }
}

/// The `pagemask` register: the page size of a TLB entry.
#[derive(Clone, Copy, PartialEq, Eq, Structural, Debug)]
pub struct PageMaskReg(pub u32);

impl PageMaskReg {
    /// Field `mask`: bits 13..=24.
    pub fn mask(&self) -> (r: PageSize)
        ensures
            r == PageSize::of_bits(field_get32(self.0, 13, 12) as u16),
    {
        proof {
            lemma_get32_fits_u16(self.0, 13, 12);
        }
        PageSize::from_bits(extract32(self.0, 13, 12) as u16)
    }

    /// Returns `self` with field `mask` (bits 13..=24) set to `value`.
    pub fn with_mask(self, value: PageSize) -> (r: Self)
        ensures
            r.0 == field_set32(self.0, 13, 12, value.bits() as u32),
    {
        PageMaskReg(deposit32(self.0, 13, 12, value.to_bits() as u32))
    }
}

/// The `wired` register: the boundary between wired and random TLB
/// entries.
#[derive(Clone, Copy, PartialEq, Eq, Structural, Debug)]
pub struct WiredReg(pub u32);

impl WiredReg {
    /// Field `wired`: bits 0..=5.
    pub fn wired(&self) -> (r: u8)
        ensures
            r as u32 == field_get32(self.0, 0, 6),
    {
        proof {
            lemma_get32_fits_u8(self.0, 0, 6);
        }
        extract32(self.0, 0, 6) as u8
    }

    /// Returns `self` with field `wired` (bits 0..=5) set to `value`.
    pub fn with_wired(self, value: u8) -> (r: Self)
        ensures
            r.0 == field_set32(self.0, 0, 6, value as u32),
    {
        WiredReg(deposit32(self.0, 0, 6, value as u32))
    }
}

/// The `status` register: interrupt enables and operating modes.
#[derive(Clone, Copy, PartialEq, Eq, Structural, Debug)]
pub struct StatusReg(pub u32);

impl StatusReg {
    /// Global interrupt enable: bit 0.
    pub fn ie(&self) -> (r: bool)
        ensures
            r == (field_get32(self.0, 0, 1) == 1),
    {
        extract32(self.0, 0, 1) == 1
    }

    /// Returns `self` with field `ie` (bit 0) set to `value`.
    pub fn with_ie(self, value: bool) -> (r: Self)
        ensures
            r.0 == field_set32(self.0, 0, 1, bit_of(value)),
    {
        StatusReg(deposit32(self.0, 0, 1, if value { 1 } else { 0 }))
    }

    /// Exception level: bit 1.
    pub fn exl(&self) -> (r: bool)
        ensures
            r == (field_get32(self.0, 1, 1) == 1),
    {
        extract32(self.0, 1, 1) == 1
    }

    /// Returns `self` with field `exl` (bit 1) set to `value`.
    pub fn with_exl(self, value: bool) -> (r: Self)
        ensures
            r.0 == field_set32(self.0, 1, 1, bit_of(value)),
    {
        StatusReg(deposit32(self.0, 1, 1, if value { 1 } else { 0 }))
    }

    /// Error level: bit 2.
    pub fn erl(&self) -> (r: bool)
        ensures
            r == (field_get32(self.0, 2, 1) == 1),
    {
        extract32(self.0, 2, 1) == 1
    }

    /// Returns `self` with field `erl` (bit 2) set to `value`.
    pub fn with_erl(self, value: bool) -> (r: Self)
        ensures
            r.0 == field_set32(self.0, 2, 1, bit_of(value)),
    {
        StatusReg(deposit32(self.0, 2, 1, if value { 1 } else { 0 }))
    }

    /// Kernel (0) / supervisor (1) / user (2) mode select: bits 3..=4.
    pub fn ksu(&self) -> (r: u8)
        ensures
            r as u32 == field_get32(self.0, 3, 2),
    {
        proof {
            lemma_get32_fits_u8(self.0, 3, 2);
        }
        extract32(self.0, 3, 2) as u8
    }

    /// Returns `self` with field `ksu` (bits 3..=4) set to `value`.
    pub fn with_ksu(self, value: u8) -> (r: Self)
        ensures
            r.0 == field_set32(self.0, 3, 2, value as u32),
    {
        StatusReg(deposit32(self.0, 3, 2, value as u32))
    }

    /// User 64-bit addressing/operations: bit 5.
    pub fn ux(&self) -> (r: bool)
        ensures
            r == (field_get32(self.0, 5, 1) == 1),
    {
        extract32(self.0, 5, 1) == 1
    }

    /// Returns `self` with field `ux` (bit 5) set to `value`.
    pub fn with_ux(self, value: bool) -> (r: Self)
        ensures
            r.0 == field_set32(self.0, 5, 1, bit_of(value)),
    {
        StatusReg(deposit32(self.0, 5, 1, if value { 1 } else { 0 }))
    }

    /// Supervisor 64-bit addressing/operations: bit 6.
    pub fn sx(&self) -> (r: bool)
        ensures
            r == (field_get32(self.0, 6, 1) == 1),
    {
        extract32(self.0, 6, 1) == 1
    }

    /// Returns `self` with field `sx` (bit 6) set to `value`.
    pub fn with_sx(self, value: bool) -> (r: Self)
        ensures
            r.0 == field_set32(self.0, 6, 1, bit_of(value)),
    {
        StatusReg(deposit32(self.0, 6, 1, if value { 1 } else { 0 }))
    }

    /// Kernel 64-bit addressing: bit 7.
    pub fn kx(&self) -> (r: bool)
        ensures
            r == (field_get32(self.0, 7, 1) == 1),
    {
        extract32(self.0, 7, 1) == 1
    }

    /// Returns `self` with field `kx` (bit 7) set to `value`.
    pub fn with_kx(self, value: bool) -> (r: Self)
        ensures
            r.0 == field_set32(self.0, 7, 1, bit_of(value)),
    {
        StatusReg(deposit32(self.0, 7, 1, if value { 1 } else { 0 }))
    }

    /// Interrupt mask: bits 8..=15.
    pub fn im(&self) -> (r: u8)
        ensures
            r as u32 == field_get32(self.0, 8, 8),
    {
        proof {
            lemma_get32_fits_u8(self.0, 8, 8);
        }
        extract32(self.0, 8, 8) as u8
    }

    /// Returns `self` with field `im` (bits 8..=15) set to `value`.
    pub fn with_im(self, value: u8) -> (r: Self)
        ensures
            r.0 == field_set32(self.0, 8, 8, value as u32),
    {
        StatusReg(deposit32(self.0, 8, 8, value as u32))
    }

    /// Field `im_ip0`: bit 8.
    pub fn im_ip0(&self) -> (r: bool)
        ensures
            r == (field_get32(self.0, 8, 1) == 1),
    {
        extract32(self.0, 8, 1) == 1
    }

    /// Returns `self` with field `im_ip0` (bit 8) set to `value`.
    pub fn with_im_ip0(self, value: bool) -> (r: Self)
        ensures
            r.0 == field_set32(self.0, 8, 1, bit_of(value)),
    {
        StatusReg(deposit32(self.0, 8, 1, if value { 1 } else { 0 }))
    }

    /// Field `im_ip1`: bit 9.
    pub fn im_ip1(&self) -> (r: bool)
        ensures
            r == (field_get32(self.0, 9, 1) == 1),
    {
        extract32(self.0, 9, 1) == 1
    }

    /// Returns `self` with field `im_ip1` (bit 9) set to `value`.
    pub fn with_im_ip1(self, value: bool) -> (r: Self)
        ensures
            r.0 == field_set32(self.0, 9, 1, bit_of(value)),
    {
        StatusReg(deposit32(self.0, 9, 1, if value { 1 } else { 0 }))
    }

    /// Field `im_int0`: bit 10.
    pub fn im_int0(&self) -> (r: bool)
        ensures
            r == (field_get32(self.0, 10, 1) == 1),
    {
        extract32(self.0, 10, 1) == 1
    }

    /// Returns `self` with field `im_int0` (bit 10) set to `value`.
    pub fn with_im_int0(self, value: bool) -> (r: Self)
        ensures
            r.0 == field_set32(self.0, 10, 1, bit_of(value)),
    {
        StatusReg(deposit32(self.0, 10, 1, if value { 1 } else { 0 }))
    }

    /// Field `im_int1`: bit 11.
    pub fn im_int1(&self) -> (r: bool)
        ensures
            r == (field_get32(self.0, 11, 1) == 1),
    {
        extract32(self.0, 11, 1) == 1
    }

    /// Returns `self` with field `im_int1` (bit 11) set to `value`.
    pub fn with_im_int1(self, value: bool) -> (r: Self)
        ensures
            r.0 == field_set32(self.0, 11, 1, bit_of(value)),
    {
        StatusReg(deposit32(self.0, 11, 1, if value { 1 } else { 0 }))
    }

    /// Field `im_int2`: bit 12.
    pub fn im_int2(&self) -> (r: bool)
        ensures
            r == (field_get32(self.0, 12, 1) == 1),
    {
        extract32(self.0, 12, 1) == 1
    }

    /// Returns `self` with field `im_int2` (bit 12) set to `value`.
    pub fn with_im_int2(self, value: bool) -> (r: Self)
        ensures
            r.0 == field_set32(self.0, 12, 1, bit_of(value)),
    {
        StatusReg(deposit32(self.0, 12, 1, if value { 1 } else { 0 }))
    }

    /// Field `im_int3`: bit 13.
    pub fn im_int3(&self) -> (r: bool)
        ensures
            r == (field_get32(self.0, 13, 1) == 1),
    {
        extract32(self.0, 13, 1) == 1
    }

    /// Returns `self` with field `im_int3` (bit 13) set to `value`.
    pub fn with_im_int3(self, value: bool) -> (r: Self)
        ensures
            r.0 == field_set32(self.0, 13, 1, bit_of(value)),
    {
        StatusReg(deposit32(self.0, 13, 1, if value { 1 } else { 0 }))
    }

    /// Field `im_int4`: bit 14.
    pub fn im_int4(&self) -> (r: bool)
        ensures
            r == (field_get32(self.0, 14, 1) == 1),
    {
        extract32(self.0, 14, 1) == 1
    }

    /// Returns `self` with field `im_int4` (bit 14) set to `value`.
    pub fn with_im_int4(self, value: bool) -> (r: Self)
        ensures
            r.0 == field_set32(self.0, 14, 1, bit_of(value)),
    {
        StatusReg(deposit32(self.0, 14, 1, if value { 1 } else { 0 }))
    }

    /// Field `im_timer`: bit 15.
    pub fn im_timer(&self) -> (r: bool)
        ensures
            r == (field_get32(self.0, 15, 1) == 1),
    {
        extract32(self.0, 15, 1) == 1
    }

    /// Returns `self` with field `im_timer` (bit 15) set to `value`.
    pub fn with_im_timer(self, value: bool) -> (r: Self)
        ensures
            r.0 == field_set32(self.0, 15, 1, bit_of(value)),
    {
        StatusReg(deposit32(self.0, 15, 1, if value { 1 } else { 0 }))
    }

    /// Diagnostic status: bits 16..=24.
    pub fn ds(&self) -> (r: u16)
        ensures
            r as u32 == field_get32(self.0, 16, 9),
    {
        proof {
            lemma_get32_fits_u16(self.0, 16, 9);
        }
        extract32(self.0, 16, 9) as u16
    }

    /// Returns `self` with field `ds` (bits 16..=24) set to `value`.
    pub fn with_ds(self, value: u16) -> (r: Self)
        ensures
            r.0 == field_set32(self.0, 16, 9, value as u32),
    {
        StatusReg(deposit32(self.0, 16, 9, value as u32))
    }

    /// Field `ds_de`: bit 16.
    pub fn ds_de(&self) -> (r: bool)
        ensures
            r == (field_get32(self.0, 16, 1) == 1),
    {
        extract32(self.0, 16, 1) == 1
    }

    /// Returns `self` with field `ds_de` (bit 16) set to `value`.
    pub fn with_ds_de(self, value: bool) -> (r: Self)
        ensures
            r.0 == field_set32(self.0, 16, 1, bit_of(value)),
    {
        StatusReg(deposit32(self.0, 16, 1, if value { 1 } else { 0 }))
    }

    /// Field `ds_ce`: bit 17.
    pub fn ds_ce(&self) -> (r: bool)
        ensures
            r == (field_get32(self.0, 17, 1) == 1),
    {
        extract32(self.0, 17, 1) == 1
    }

    /// Returns `self` with field `ds_ce` (bit 17) set to `value`.
    pub fn with_ds_ce(self, value: bool) -> (r: Self)
        ensures
            r.0 == field_set32(self.0, 17, 1, bit_of(value)),
    {
        StatusReg(deposit32(self.0, 17, 1, if value { 1 } else { 0 }))
    }

    /// Field `ds_ch`: bit 18.
    pub fn ds_ch(&self) -> (r: bool)
        ensures
            r == (field_get32(self.0, 18, 1) == 1),
    {
        extract32(self.0, 18, 1) == 1
    }

    /// Returns `self` with field `ds_ch` (bit 18) set to `value`.
    pub fn with_ds_ch(self, value: bool) -> (r: Self)
        ensures
            r.0 == field_set32(self.0, 18, 1, bit_of(value)),
    {
        StatusReg(deposit32(self.0, 18, 1, if value { 1 } else { 0 }))
    }

    /// Field `ds_sr`: bit 20.
    pub fn ds_sr(&self) -> (r: bool)
        ensures
            r == (field_get32(self.0, 20, 1) == 1),
    {
        extract32(self.0, 20, 1) == 1
    }

    /// Returns `self` with field `ds_sr` (bit 20) set to `value`.
    pub fn with_ds_sr(self, value: bool) -> (r: Self)
        ensures
            r.0 == field_set32(self.0, 20, 1, bit_of(value)),
    {
        StatusReg(deposit32(self.0, 20, 1, if value { 1 } else { 0 }))
    }

    /// Field `ds_ts`: bit 21.
    pub fn ds_ts(&self) -> (r: bool)
        ensures
            r == (field_get32(self.0, 21, 1) == 1),
    {
        extract32(self.0, 21, 1) == 1
    }

    /// Returns `self` with field `ds_ts` (bit 21) set to `value`.
    pub fn with_ds_ts(self, value: bool) -> (r: Self)
        ensures
            r.0 == field_set32(self.0, 21, 1, bit_of(value)),
    {
        StatusReg(deposit32(self.0, 21, 1, if value { 1 } else { 0 }))
    }

    /// Field `ds_bev`: bit 22.
    pub fn ds_bev(&self) -> (r: bool)
        ensures
            r == (field_get32(self.0, 22, 1) == 1),
    {
        extract32(self.0, 22, 1) == 1
    }

    /// Returns `self` with field `ds_bev` (bit 22) set to `value`.
    pub fn with_ds_bev(self, value: bool) -> (r: Self)
        ensures
            r.0 == field_set32(self.0, 22, 1, bit_of(value)),
    {
        StatusReg(deposit32(self.0, 22, 1, if value { 1 } else { 0 }))
    }

    /// Field `ds_its`: bit 24.
    pub fn ds_its(&self) -> (r: bool)
        ensures
            r == (field_get32(self.0, 24, 1) == 1),
    {
        extract32(self.0, 24, 1) == 1
    }

    /// Returns `self` with field `ds_its` (bit 24) set to `value`.
    pub fn with_ds_its(self, value: bool) -> (r: Self)
        ensures
            r.0 == field_set32(self.0, 24, 1, bit_of(value)),
    {
        StatusReg(deposit32(self.0, 24, 1, if value { 1 } else { 0 }))
    }

    /// Field `re`: bit 25.
    pub fn re(&self) -> (r: bool)
        ensures
            r == (field_get32(self.0, 25, 1) == 1),
    {
        extract32(self.0, 25, 1) == 1
    }

    /// Returns `self` with field `re` (bit 25) set to `value`.
    pub fn with_re(self, value: bool) -> (r: Self)
        ensures
            r.0 == field_set32(self.0, 25, 1, bit_of(value)),
    {
        StatusReg(deposit32(self.0, 25, 1, if value { 1 } else { 0 }))
    }

    /// Field `fr`: bit 26.
    pub fn fr(&self) -> (r: bool)
        ensures
            r == (field_get32(self.0, 26, 1) == 1),
    {
        extract32(self.0, 26, 1) == 1
    }

    /// Returns `self` with field `fr` (bit 26) set to `value`.
    pub fn with_fr(self, value: bool) -> (r: Self)
        ensures
            r.0 == field_set32(self.0, 26, 1, bit_of(value)),
    {
        StatusReg(deposit32(self.0, 26, 1, if value { 1 } else { 0 }))
    }

    /// Field `rp`: bit 27.
    pub fn rp(&self) -> (r: bool)
        ensures
            r == (field_get32(self.0, 27, 1) == 1),
    {
        extract32(self.0, 27, 1) == 1
    }

    /// Returns `self` with field `rp` (bit 27) set to `value`.
    pub fn with_rp(self, value: bool) -> (r: Self)
        ensures
            r.0 == field_set32(self.0, 27, 1, bit_of(value)),
    {
        StatusReg(deposit32(self.0, 27, 1, if value { 1 } else { 0 }))
    }

    /// Coprocessor usability: bits 28..=31.
    pub fn cu(&self) -> (r: u8)
        ensures
            r as u32 == field_get32(self.0, 28, 4),
    {
        proof {
            lemma_get32_fits_u8(self.0, 28, 4);
        }
        extract32(self.0, 28, 4) as u8
    }

    /// Returns `self` with field `cu` (bits 28..=31) set to `value`.
    pub fn with_cu(self, value: u8) -> (r: Self)
        ensures
            r.0 == field_set32(self.0, 28, 4, value as u32),
    {
        StatusReg(deposit32(self.0, 28, 4, value as u32))
    }
}

/// The `cause` register: the nature of the most recent exception and
/// the pending interrupts.
#[derive(Clone, Copy, PartialEq, Eq, Structural, Debug)]
pub struct CauseReg(pub u32);

impl CauseReg {
    /// Field `exception_code`: bits 2..=6.
    pub fn exception_code(&self) -> (r: ExceptionCode)
        ensures
            r == ExceptionCode::of_bits(field_get32(self.0, 2, 5) as u8),
    {
        proof {
            lemma_get32_fits_u8(self.0, 2, 5);
        }
        ExceptionCode::from_bits(extract32(self.0, 2, 5) as u8)
    }

    /// Software interrupt 0: bit 8; set to trigger the interrupt.
    pub fn ip0(&self) -> (r: bool)
        ensures
            r == (field_get32(self.0, 8, 1) == 1),
    {
        extract32(self.0, 8, 1) == 1
    }

    /// Returns `self` with field `ip0` (bit 8) set to `value`.
    pub fn with_ip0(self, value: bool) -> (r: Self)
        ensures
            r.0 == field_set32(self.0, 8, 1, bit_of(value)),
    {
        CauseReg(deposit32(self.0, 8, 1, if value { 1 } else { 0 }))
    }

    /// Software interrupt 1: bit 9; set to trigger the interrupt.
    pub fn ip1(&self) -> (r: bool)
        ensures
            r == (field_get32(self.0, 9, 1) == 1),
    {
        extract32(self.0, 9, 1) == 1
    }

    /// Returns `self` with field `ip1` (bit 9) set to `value`.
    pub fn with_ip1(self, value: bool) -> (r: Self)
        ensures
            r.0 == field_set32(self.0, 9, 1, bit_of(value)),
    {
        CauseReg(deposit32(self.0, 9, 1, if value { 1 } else { 0 }))
    }

    /// Field `ip2`: bit 10.
    pub fn ip2(&self) -> (r: bool)
        ensures
            r == (field_get32(self.0, 10, 1) == 1),
    {
        extract32(self.0, 10, 1) == 1
    }

    /// Field `ip3`: bit 11.
    pub fn ip3(&self) -> (r: bool)
        ensures
            r == (field_get32(self.0, 11, 1) == 1),
    {
        extract32(self.0, 11, 1) == 1
    }

    /// Field `ip4`: bit 12.
    pub fn ip4(&self) -> (r: bool)
        ensures
            r == (field_get32(self.0, 12, 1) == 1),
    {
        extract32(self.0, 12, 1) == 1
    }

    /// Field `ip5`: bit 13.
    pub fn ip5(&self) -> (r: bool)
        ensures
            r == (field_get32(self.0, 13, 1) == 1),
    {
        extract32(self.0, 13, 1) == 1
    }

    /// Field `ip6`: bit 14.
    pub fn ip6(&self) -> (r: bool)
        ensures
            r == (field_get32(self.0, 14, 1) == 1),
    {
        extract32(self.0, 14, 1) == 1
    }

    /// Timer interrupt: bit 15.
    pub fn ip7(&self) -> (r: bool)
        ensures
            r == (field_get32(self.0, 15, 1) == 1),
    {
        extract32(self.0, 15, 1) == 1
    }

    /// Coprocessor unit of a coprocessor-unusable exception: bits 28..=29.
    pub fn ce(&self) -> (r: u8)
        ensures
            r as u32 == field_get32(self.0, 28, 2),
    {
        proof {
            lemma_get32_fits_u8(self.0, 28, 2);
        }
        extract32(self.0, 28, 2) as u8
    }

    /// Whether the last exception occurred in a branch delay slot: bit 31.
    pub fn branch_delay(&self) -> (r: bool)
        ensures
            r == (field_get32(self.0, 31, 1) == 1),
    {
        extract32(self.0, 31, 1) == 1
    }
}

/// The `processor_revision_id` register, read-only.
#[derive(Clone, Copy, PartialEq, Eq, Structural, Debug)]
pub struct ProcessorRevisionIdReg(pub u32);

impl ProcessorRevisionIdReg {
    /// Field `revision`: bits 0..=7.
    pub fn revision(&self) -> (r: u8)
        ensures
            r as u32 == field_get32(self.0, 0, 8),
    {
        proof {
            lemma_get32_fits_u8(self.0, 0, 8);
        }
        extract32(self.0, 0, 8) as u8
    }

    /// Field `processor_id`: bits 8..=15.
    pub fn processor_id(&self) -> (r: u8)
        ensures
            r as u32 == field_get32(self.0, 8, 8),
    {
        proof {
            lemma_get32_fits_u8(self.0, 8, 8);
        }
        extract32(self.0, 8, 8) as u8
    }
}

/// The `config` register: cache, endianness and bus configuration.
#[derive(Clone, Copy, PartialEq, Eq, Structural, Debug)]
pub struct ConfigReg(pub u32);

impl ConfigReg {
    /// Field `k0`: bits 0..=2.
    pub fn k0(&self) -> (r: CacheAlgorithm)
        ensures
            r == CacheAlgorithm::of_bits(field_get32(self.0, 0, 3) as u8),
    {
        proof {
            lemma_get32_fits_u8(self.0, 0, 3);
        }
        CacheAlgorithm::from_bits(extract32(self.0, 0, 3) as u8)
    }

    /// Returns `self` with field `k0` (bits 0..=2) set to `value`.
    pub fn with_k0(self, value: CacheAlgorithm) -> (r: Self)
        ensures
            r.0 == field_set32(self.0, 0, 3, value.bits() as u32),
    {
        ConfigReg(deposit32(self.0, 0, 3, value.to_bits() as u32))
    }

    /// Field `cu`: bit 3.
    pub fn cu(&self) -> (r: bool)
        ensures
            r == (field_get32(self.0, 3, 1) == 1),
    {
        extract32(self.0, 3, 1) == 1
    }

    /// Returns `self` with field `cu` (bit 3) set to `value`.
    pub fn with_cu(self, value: bool) -> (r: Self)
        ensures
            r.0 == field_set32(self.0, 3, 1, bit_of(value)),
    {
        ConfigReg(deposit32(self.0, 3, 1, if value { 1 } else { 0 }))
    }

    /// Memory endianness: bit 15; set for big endian (the cold-reset default).
    pub fn be(&self) -> (r: bool)
        ensures
            r == (field_get32(self.0, 15, 1) == 1),
    {
        extract32(self.0, 15, 1) == 1
    }

    /// Returns `self` with field `be` (bit 15) set to `value`.
    pub fn with_be(self, value: bool) -> (r: Self)
        ensures
            r.0 == field_set32(self.0, 15, 1, bit_of(value)),
    {
        ConfigReg(deposit32(self.0, 15, 1, if value { 1 } else { 0 }))
    }

    /// Field `ep`: bits 24..=27.
    pub fn ep(&self) -> (r: u8)
        ensures
            r as u32 == field_get32(self.0, 24, 4),
    {
        proof {
            lemma_get32_fits_u8(self.0, 24, 4);
        }
        extract32(self.0, 24, 4) as u8
    }

    /// Returns `self` with field `ep` (bits 24..=27) set to `value`.
    pub fn with_ep(self, value: u8) -> (r: Self)
        ensures
            r.0 == field_set32(self.0, 24, 4, value as u32),
    {
        ConfigReg(deposit32(self.0, 24, 4, value as u32))
    }

    /// Operating frequency ratio, fixed by the DivMode pins: bits 28..=30.
    pub fn ec(&self) -> (r: u8)
        ensures
            r as u32 == field_get32(self.0, 28, 3),
    {
        proof {
            lemma_get32_fits_u8(self.0, 28, 3);
        }
        extract32(self.0, 28, 3) as u8
    }
}

/// The `watchlo` register: the low bits of a watched physical
/// address and what accesses trap on it.
#[derive(Clone, Copy, PartialEq, Eq, Structural, Debug)]
pub struct WatchLoReg(pub u32);

impl WatchLoReg {
    /// Trap on store instructions: bit 0.
    pub fn w(&self) -> (r: bool)
        ensures
            r == (field_get32(self.0, 0, 1) == 1),
    {
        extract32(self.0, 0, 1) == 1
    }

    /// Returns `self` with field `w` (bit 0) set to `value`.
    pub fn with_w(self, value: bool) -> (r: Self)
        ensures
            r.0 == field_set32(self.0, 0, 1, bit_of(value)),
    {
        WatchLoReg(deposit32(self.0, 0, 1, if value { 1 } else { 0 }))
    }

    /// Trap on load instructions: bit 1.
    pub fn r(&self) -> (r: bool)
        ensures
            r == (field_get32(self.0, 1, 1) == 1),
    {
        extract32(self.0, 1, 1) == 1
    }

    /// Returns `self` with field `r` (bit 1) set to `value`.
    pub fn with_r(self, value: bool) -> (r: Self)
        ensures
            r.0 == field_set32(self.0, 1, 1, bit_of(value)),
    {
        WatchLoReg(deposit32(self.0, 1, 1, if value { 1 } else { 0 }))
    }

    /// Field `paddr0`: bits 3..=31.
    pub fn paddr0(&self) -> (r: u32)
        ensures
            r == field_get32(self.0, 3, 29),
    {
        extract32(self.0, 3, 29)
    }

    /// Returns `self` with field `paddr0` (bits 3..=31) set to `value`.
    pub fn with_paddr0(self, value: u32) -> (r: Self)
        ensures
            r.0 == field_set32(self.0, 3, 29, value),
    {
        WatchLoReg(deposit32(self.0, 3, 29, value))
    }
}

/// The `watchhi` register: the high bits of a watched physical
/// address.
#[derive(Clone, Copy, PartialEq, Eq, Structural, Debug)]
pub struct WatchHiReg(pub u32);

impl WatchHiReg {
    /// Field `paddr1`: bits 0..=3.
    pub fn paddr1(&self) -> (r: u32)
        ensures
            r == field_get32(self.0, 0, 4),
    {
        extract32(self.0, 0, 4)
    }

    /// Returns `self` with field `paddr1` (bits 0..=3) set to `value`.
    pub fn with_paddr1(self, value: u32) -> (r: Self)
        ensures
            r.0 == field_set32(self.0, 0, 4, value),
    {
        WatchHiReg(deposit32(self.0, 0, 4, value))
    }
}

/// The `parity_error` register.
#[derive(Clone, Copy, PartialEq, Eq, Structural, Debug)]
pub struct ParityErrorReg(pub u32);

impl ParityErrorReg {
    /// Field `diagnostic`: bits 0..=7.
    pub fn diagnostic(&self) -> (r: u8)
        ensures
            r as u32 == field_get32(self.0, 0, 8),
    {
        proof {
            lemma_get32_fits_u8(self.0, 0, 8);
        }
        extract32(self.0, 0, 8) as u8
    }

    /// Returns `self` with field `diagnostic` (bits 0..=7) set to `value`.
    pub fn with_diagnostic(self, value: u8) -> (r: Self)
        ensures
            r.0 == field_set32(self.0, 0, 8, value as u32),
    {
        ParityErrorReg(deposit32(self.0, 0, 8, value as u32))
    }
}

/// The `taglo` register: cache tag state for cache operations.
#[derive(Clone, Copy, PartialEq, Eq, Structural, Debug)]
pub struct TagLoReg(pub u32);

impl TagLoReg {
    /// Field `pstate`: bits 6..=7.
    pub fn pstate(&self) -> (r: u8)
        ensures
            r as u32 == field_get32(self.0, 6, 2),
    {
        proof {
            lemma_get32_fits_u8(self.0, 6, 2);
        }
        extract32(self.0, 6, 2) as u8
    }

    /// Returns `self` with field `pstate` (bits 6..=7) set to `value`.
    pub fn with_pstate(self, value: u8) -> (r: Self)
        ensures
            r.0 == field_set32(self.0, 6, 2, value as u32),
    {
        TagLoReg(deposit32(self.0, 6, 2, value as u32))
    }

    /// Field `ptaglo`: bits 8..=27.
    pub fn ptaglo(&self) -> (r: u32)
        ensures
            r == field_get32(self.0, 8, 20),
    {
        extract32(self.0, 8, 20)
    }

    /// Returns `self` with field `ptaglo` (bits 8..=27) set to `value`.
    pub fn with_ptaglo(self, value: u32) -> (r: Self)
        ensures
            r.0 == field_set32(self.0, 8, 20, value),
    {
        TagLoReg(deposit32(self.0, 8, 20, value))
    }
}

/// The `context` register: the page table location of a failing
/// virtual address.
#[derive(Clone, Copy, PartialEq, Eq, Structural, Debug)]
pub struct ContextReg(pub u64);

impl ContextReg {
    /// Page number of the virtual address whose translation failed, halved: bits 4..=22.
    pub fn bad_vpn2(&self) -> (r: u32)
        ensures
            r as u64 == field_get64(self.0, 4, 19),
    {
        proof {
            lemma_get64_fits_u32(self.0, 4, 19);
        }
        extract64(self.0, 4, 19) as u32
    }

    /// Returns `self` with field `bad_vpn2` (bits 4..=22) set to `value`.
    pub fn with_bad_vpn2(self, value: u32) -> (r: Self)
        ensures
            r.0 == field_set64(self.0, 4, 19, value as u64),
    {
        ContextReg(deposit64(self.0, 4, 19, value as u64))
    }

    /// Page table entry base in 32-bit mode: bits 23..=31.
    pub fn pte_base_u32(&self) -> (r: u32)
        ensures
            r as u64 == field_get64(self.0, 23, 9),
    {
        proof {
            lemma_get64_fits_u32(self.0, 23, 9);
        }
        extract64(self.0, 23, 9) as u32
    }

    /// Returns `self` with field `pte_base_u32` (bits 23..=31) set to `value`.
    pub fn with_pte_base_u32(self, value: u32) -> (r: Self)
        ensures
            r.0 == field_set64(self.0, 23, 9, value as u64),
    {
        ContextReg(deposit64(self.0, 23, 9, value as u64))
    }

    /// Page table entry base in 64-bit mode: bits 23..=63.
    pub fn pte_base_u64(&self) -> (r: u64)
        ensures
            r == field_get64(self.0, 23, 41),
    {
        extract64(self.0, 23, 41)
    }

    /// Returns `self` with field `pte_base_u64` (bits 23..=63) set to `value`.
    pub fn with_pte_base_u64(self, value: u64) -> (r: Self)
        ensures
            r.0 == field_set64(self.0, 23, 41, value),
    {
        ContextReg(deposit64(self.0, 23, 41, value))
    }
}

/// The `badvaddr` register: the most recently failing virtual
/// address, read-only.
#[derive(Clone, Copy, PartialEq, Eq, Structural, Debug)]
pub struct BadVAddrReg(pub u64);

impl BadVAddrReg {
    /// Field `badvaddr_u32`: bits 0..=31.
    pub fn badvaddr_u32(&self) -> (r: u32)
        ensures
            r as u64 == field_get64(self.0, 0, 32),
    {
        proof {
            lemma_get64_fits_u32(self.0, 0, 32);
        }
        extract64(self.0, 0, 32) as u32
    }

    /// Field `badvaddr_u64`: bits 0..=63.
    pub fn badvaddr_u64(&self) -> (r: u64)
        ensures
            r == field_get64(self.0, 0, 64),
    {
        extract64(self.0, 0, 64)
    }
}

/// The `entryhi` register: the virtual page number and address
/// space identifier of a TLB entry.
#[derive(Clone, Copy, PartialEq, Eq, Structural, Debug)]
pub struct EntryHiReg(pub u64);

impl EntryHiReg {
    /// Address space identifier: bits 0..=7.
    pub fn asid(&self) -> (r: u8)
        ensures
            r as u64 == field_get64(self.0, 0, 8),
    {
        proof {
            lemma_get64_fits_u8(self.0, 0, 8);
        }
        extract64(self.0, 0, 8) as u8
    }

    /// Returns `self` with field `asid` (bits 0..=7) set to `value`.
    pub fn with_asid(self, value: u8) -> (r: Self)
        ensures
            r.0 == field_set64(self.0, 0, 8, value as u64),
    {
        EntryHiReg(deposit64(self.0, 0, 8, value as u64))
    }

    /// Virtual page number, halved, in 32-bit mode: bits 13..=31.
    pub fn vpn2_u32(&self) -> (r: u32)
        ensures
            r as u64 == field_get64(self.0, 13, 19),
    {
        proof {
            lemma_get64_fits_u32(self.0, 13, 19);
        }
        extract64(self.0, 13, 19) as u32
    }

    /// Returns `self` with field `vpn2_u32` (bits 13..=31) set to `value`.
    pub fn with_vpn2_u32(self, value: u32) -> (r: Self)
        ensures
            r.0 == field_set64(self.0, 13, 19, value as u64),
    {
        EntryHiReg(deposit64(self.0, 13, 19, value as u64))
    }

    /// Virtual page number, halved, in 64-bit mode: bits 13..=39.
    pub fn vpn2_u64(&self) -> (r: u32)
        ensures
            r as u64 == field_get64(self.0, 13, 27),
    {
        proof {
            lemma_get64_fits_u32(self.0, 13, 27);
        }
        extract64(self.0, 13, 27) as u32
    }

    /// Returns `self` with field `vpn2_u64` (bits 13..=39) set to `value`.
    pub fn with_vpn2_u64(self, value: u32) -> (r: Self)
        ensures
            r.0 == field_set64(self.0, 13, 27, value as u64),
    {
        EntryHiReg(deposit64(self.0, 13, 27, value as u64))
    }

    /// Reserved, undefined on read, in 64-bit mode: bits 40..=61.
    pub fn fill(&self) -> (r: u32)
        ensures
            r as u64 == field_get64(self.0, 40, 22),
    {
        proof {
            lemma_get64_fits_u32(self.0, 40, 22);
        }
        extract64(self.0, 40, 22) as u32
    }

    /// Returns `self` with field `fill` (bits 40..=61) set to `value`.
    pub fn with_fill(self, value: u32) -> (r: Self)
        ensures
            r.0 == field_set64(self.0, 40, 22, value as u64),
    {
        EntryHiReg(deposit64(self.0, 40, 22, value as u64))
    }

    /// Field `region`: bits 62..=63.
    pub fn region(&self) -> (r: VAddrRegion)
        ensures
            r == VAddrRegion::of_bits(field_get64(self.0, 62, 2) as u8),
    {
        proof {
            lemma_get64_fits_u8(self.0, 62, 2);
        }
        VAddrRegion::from_bits(extract64(self.0, 62, 2) as u8)
    }

    /// Returns `self` with field `region` (bits 62..=63) set to `value`.
    pub fn with_region(self, value: VAddrRegion) -> (r: Self)
        ensures
            r.0 == field_set64(self.0, 62, 2, value.bits() as u64),
    {
        EntryHiReg(deposit64(self.0, 62, 2, value.to_bits() as u64))
    }
}

/// The `exception_pc` register: where processing resumes after
/// an exception has been serviced.
#[derive(Clone, Copy, PartialEq, Eq, Structural, Debug)]
pub struct ExceptionPcReg(pub u64);

impl ExceptionPcReg {
    /// Field `epc_u32`: bits 0..=31.
    pub fn epc_u32(&self) -> (r: u32)
        ensures
            r as u64 == field_get64(self.0, 0, 32),
    {
        proof {
            lemma_get64_fits_u32(self.0, 0, 32);
        }
        extract64(self.0, 0, 32) as u32
    }

    /// Returns `self` with field `epc_u32` (bits 0..=31) set to `value`.
    pub fn with_epc_u32(self, value: u32) -> (r: Self)
        ensures
            r.0 == field_set64(self.0, 0, 32, value as u64),
    {
        ExceptionPcReg(deposit64(self.0, 0, 32, value as u64))
    }

    /// Field `epc_u64`: bits 0..=63.
    pub fn epc_u64(&self) -> (r: u64)
        ensures
            r == field_get64(self.0, 0, 64),
    {
        extract64(self.0, 0, 64)
    }

    /// Returns `self` with field `epc_u64` (bits 0..=63) set to `value`.
    pub fn with_epc_u64(self, value: u64) -> (r: Self)
        ensures
            r.0 == field_set64(self.0, 0, 64, value),
    {
        ExceptionPcReg(deposit64(self.0, 0, 64, value))
    }
}

/// The `xcontext` register: the 64-bit-mode analogue of
/// `context`.
#[derive(Clone, Copy, PartialEq, Eq, Structural, Debug)]
pub struct XContextReg(pub u64);

impl XContextReg {
    /// Field `badvpn2`: bits 4..=30.
    pub fn badvpn2(&self) -> (r: u32)
        ensures
            r as u64 == field_get64(self.0, 4, 27),
    {
        proof {
            lemma_get64_fits_u32(self.0, 4, 27);
        }
        extract64(self.0, 4, 27) as u32
    }

    /// Returns `self` with field `badvpn2` (bits 4..=30) set to `value`.
    pub fn with_badvpn2(self, value: u32) -> (r: Self)
        ensures
            r.0 == field_set64(self.0, 4, 27, value as u64),
    {
        XContextReg(deposit64(self.0, 4, 27, value as u64))
    }

    /// Field `region`: bits 31..=32.
    pub fn region(&self) -> (r: VAddrRegion)
        ensures
            r == VAddrRegion::of_bits(field_get64(self.0, 31, 2) as u8),
    {
        proof {
            lemma_get64_fits_u8(self.0, 31, 2);
        }
        VAddrRegion::from_bits(extract64(self.0, 31, 2) as u8)
    }

    /// Returns `self` with field `region` (bits 31..=32) set to `value`.
    pub fn with_region(self, value: VAddrRegion) -> (r: Self)
        ensures
            r.0 == field_set64(self.0, 31, 2, value.bits() as u64),
    {
        XContextReg(deposit64(self.0, 31, 2, value.to_bits() as u64))
    }

    /// Field `ptebase`: bits 33..=63.
    pub fn ptebase(&self) -> (r: u32)
        ensures
            r as u64 == field_get64(self.0, 33, 31),
    {
        proof {
            lemma_get64_fits_u32(self.0, 33, 31);
        }
        extract64(self.0, 33, 31) as u32
    }

    /// Returns `self` with field `ptebase` (bits 33..=63) set to `value`.
    pub fn with_ptebase(self, value: u32) -> (r: Self)
        ensures
            r.0 == field_set64(self.0, 33, 31, value as u64),
    {
        XContextReg(deposit64(self.0, 33, 31, value as u64))
    }
}

/// The `error_exception_pc` register: the program counter
/// at cold reset, soft reset or NMI.
#[derive(Clone, Copy, PartialEq, Eq, Structural, Debug)]
pub struct ErrorExceptionPcReg(pub u64);

impl ErrorExceptionPcReg {
    /// Field `epc_u32`: bits 0..=31.
    pub fn epc_u32(&self) -> (r: u32)
        ensures
            r as u64 == field_get64(self.0, 0, 32),
    {
        proof {
            lemma_get64_fits_u32(self.0, 0, 32);
        }
        extract64(self.0, 0, 32) as u32
    }

    /// Returns `self` with field `epc_u32` (bits 0..=31) set to `value`.
    pub fn with_epc_u32(self, value: u32) -> (r: Self)
        ensures
            r.0 == field_set64(self.0, 0, 32, value as u64),
    {
        ErrorExceptionPcReg(deposit64(self.0, 0, 32, value as u64))
    }

    /// Field `epc_u64`: bits 0..=63.
    pub fn epc_u64(&self) -> (r: u64)
        ensures
            r == field_get64(self.0, 0, 64),
    {
        extract64(self.0, 0, 64)
    }

    /// Returns `self` with field `epc_u64` (bits 0..=63) set to `value`.
    pub fn with_epc_u64(self, value: u64) -> (r: Self)
        ensures
            r.0 == field_set64(self.0, 0, 64, value),
    {
        ErrorExceptionPcReg(deposit64(self.0, 0, 64, value))
    }
}

} // verus!
