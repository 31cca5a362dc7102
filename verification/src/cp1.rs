//! FPU - Coprocessor 1 (floating point).

use vstd::prelude::*;

use crate::field::{bit_of, extract32, deposit32, field_get32, field_set32, lemma_get32_fits_u8, lemma_u64_halves};
use vstd::pervasive::VecAdditionalExecFns;

verus! {

/// The CP1 (floating-point coprocessor) register file, and its separate
/// file of control registers.
///
/// Registers are reached by index through dedicated instructions, not by
/// address; a wide (64-bit) transfer moves two 32-bit halves and is not
/// atomic across them — the same hazard class as an interrupted
/// read-modify-write on a memory-mapped register.
pub struct Cp1 {
    regs: Vec<u64>,
    fcr: Vec<u32>,
}

impl Cp1 {
    /// The 64-bit value of register `i`.
    pub closed spec fn reg(self, i: int) -> u64 {
        self.regs@[i]
    }

    /// The value of floating-point control register `i`.
    pub closed spec fn control_reg(self, i: int) -> u32 {
        self.fcr@[i]
    }

    /// The file holds the 32 architecturally addressable registers.
    pub closed spec fn wf(self) -> bool {
        self.regs@.len() == 32 && self.fcr@.len() == 32
    }

    /// A register file with every register zero.
    pub fn new() -> (c: Cp1)
        ensures
            c.wf(),
            forall|i: int| 0 <= i < 32 ==> c.reg(i) == 0,
            forall|i: int| 0 <= i < 32 ==> c.control_reg(i) == 0,
    {
        let mut regs: Vec<u64> = Vec::new();
        let mut i: usize = 0;
        while i < 32
            invariant
                i <= 32,
                regs@.len() == i,
                forall|j: int| 0 <= j < i ==> regs@[j] == 0,
            decreases 32 - i,
        {
            regs.push(0);
            i += 1;
        }
        let mut fcr: Vec<u32> = Vec::new();
        let mut k: usize = 0;
        while k < 32
            invariant
                k <= 32,
                fcr@.len() == k,
                forall|j: int| 0 <= j < k ==> fcr@[j] == 0,
            decreases 32 - k,
        {
            fcr.push(0);
            k += 1;
        }
        Cp1 { regs, fcr }
    }

    /// One privileged 32-bit read of register `INDEX`: its low word.
    pub fn read_u32<const INDEX: u32>(&self) -> (r: u32)
        requires
            self.wf(),
            INDEX < 32,
        ensures
            r == self.reg(INDEX as int) as u32,
    {
        #[verifier::truncate] (self.regs[INDEX as usize] as u32)
    }

    /// The high word of register `INDEX`, as one more 32-bit transfer.
    fn read_hi<const INDEX: u32>(&self) -> (r: u32)
        requires
            self.wf(),
            INDEX < 32,
        ensures
            r == (self.reg(INDEX as int) >> 32) as u32,
    {
        #[verifier::truncate] ((self.regs[INDEX as usize] >> 32) as u32)
    }

    /// One privileged 64-bit read of register `INDEX`, composed of two
    /// narrower transfers combined high/low.
    pub fn read_u64<const INDEX: u32>(&self) -> (r: u64)
        requires
            self.wf(),
            INDEX < 32,
        ensures
            r == self.reg(INDEX as int),
    {
        let lo: u32 = self.read_u32::<INDEX>();
        let hi: u32 = self.read_hi::<INDEX>();
        proof {
            lemma_u64_halves(self.reg(INDEX as int));
        }
        ((hi as u64) << 32) | (lo as u64)
    }

    /// One privileged 32-bit write of register `INDEX`; the register takes
    /// the written word.
    pub fn write_u32<const INDEX: u32>(&mut self, value: u32)
        requires
            old(self).wf(),
            INDEX < 32,
        ensures
            final(self).wf(),
            final(self).reg(INDEX as int) == value as u64,
            forall|i: int|
                0 <= i < 32 && i != INDEX as int ==> final(self).reg(i) == old(self).reg(i),
            forall|i: int| 0 <= i < 32 ==> final(self).control_reg(i) == old(self).control_reg(i),
    {
        self.regs.set(INDEX as usize, value as u64);
    }

    /// One privileged 64-bit write of register `INDEX`: the value is
    /// decomposed into two words and recombined through a temporary.
    pub fn write_u64<const INDEX: u32>(&mut self, value: u64)
        requires
            old(self).wf(),
            INDEX < 32,
        ensures
            final(self).wf(),
            final(self).reg(INDEX as int) == value,
            forall|i: int|
                0 <= i < 32 && i != INDEX as int ==> final(self).reg(i) == old(self).reg(i),
            forall|i: int| 0 <= i < 32 ==> final(self).control_reg(i) == old(self).control_reg(i),
    {
        let lo: u32 = #[verifier::truncate] (value as u32);
        let hi: u32 = #[verifier::truncate] ((value >> 32) as u32);
        let combined: u64 = ((hi as u64) << 32) | (lo as u64);
        proof {
            lemma_u64_halves(value);
        }
        self.regs.set(INDEX as usize, combined);
    }

    /// One 32-bit read of register `INDEX`, `func` applied to the word read,
    /// one 32-bit write of the result. The two transfers are not atomic: a
    /// write to the same register from another execution context between
    /// them is lost.
    pub fn modify_u32<const INDEX: u32, F: FnOnce(u32) -> u32>(&mut self, func: F)
        requires
            old(self).wf(),
            INDEX < 32,
            call_requires(func, (old(self).reg(INDEX as int) as u32,)),
        ensures
            final(self).wf(),
            exists|m: u32|
                #[trigger] call_ensures(func, (old(self).reg(INDEX as int) as u32,), m) && final(self).reg(
                    INDEX as int,
                ) == m as u64,
            forall|i: int|
                0 <= i < 32 && i != INDEX as int ==> final(self).reg(i) == old(self).reg(i),
            forall|i: int| 0 <= i < 32 ==> final(self).control_reg(i) == old(self).control_reg(i),
    {
        let v = self.read_u32::<INDEX>();
        let v2 = func(v);
        self.write_u32::<INDEX>(v2);
    }

    /// One 64-bit read of register `INDEX`, `func` applied, one 64-bit
    /// write of the result; not atomic, as [`Self::modify_u32`].
    pub fn modify_u64<const INDEX: u32, F: FnOnce(u64) -> u64>(&mut self, func: F)
        requires
            old(self).wf(),
            INDEX < 32,
            call_requires(func, (old(self).reg(INDEX as int),)),
        ensures
            final(self).wf(),
            exists|m: u64|
                #[trigger] call_ensures(func, (old(self).reg(INDEX as int),), m) && final(self).reg(
                    INDEX as int,
                ) == m,
            forall|i: int|
                0 <= i < 32 && i != INDEX as int ==> final(self).reg(i) == old(self).reg(i),
            forall|i: int| 0 <= i < 32 ==> final(self).control_reg(i) == old(self).control_reg(i),
    {
        let v = self.read_u64::<INDEX>();
        let v2 = func(v);
        self.write_u64::<INDEX>(v2);
    }

    /// One read of floating-point control register `INDEX`. Only control
    /// registers 0 and 31 are known to exist.
    pub fn read_fcr<const INDEX: u32>(&self) -> (r: u32)
        requires
            self.wf(),
            INDEX < 32,
        ensures
            r == self.control_reg(INDEX as int),
    {
        self.fcr[INDEX as usize]
    }

    /// One write of floating-point control register `INDEX`. Only control
    /// registers 0 and 31 are known to exist.
    pub fn write_fcr<const INDEX: u32>(&mut self, value: u32)
        requires
            old(self).wf(),
            INDEX < 32,
        ensures
            final(self).wf(),
            final(self).control_reg(INDEX as int) == value,
            forall|i: int|
                0 <= i < 32 && i != INDEX as int ==> final(self).control_reg(i) == old(
                    self,
                ).control_reg(i),
            forall|i: int| 0 <= i < 32 ==> final(self).reg(i) == old(self).reg(i),
    {
        self.fcr.set(INDEX as usize, value);
    }

    /// CP1 register 0, `revision_implementation`, decoded.
    pub fn revision_implementation(&self) -> (r: ImplementationRevisionReg)
        requires
            self.wf(),
        ensures
            r.0 == self.reg(0) as u32,
    {
        ImplementationRevisionReg(self.read_u32::<0>())
    }

    /// CP1 register 31, `control_status`, decoded.
    pub fn control_status(&self) -> (r: ControlStatusReg)
        requires
            self.wf(),
        ensures
            r.0 == self.reg(31) as u32,
    {
        ControlStatusReg(self.read_u32::<31>())
    }

    /// Writes CP1 register 31, `control_status`.
    pub fn set_control_status(&mut self, value: ControlStatusReg)
        requires
            old(self).wf(),
        ensures
            final(self).wf(),
            final(self).reg(31) == value.0 as u64,
            forall|i: int| 0 <= i < 32 && i != 31 ==> final(self).reg(i) == old(self).reg(i),
    {
        self.write_u32::<31>(value.0);
    }
}

/// Rounding modes of the floating-point `control_status` register.
#[derive(Clone, Copy, PartialEq, Eq, Structural, Debug)]
pub enum RoundingMode {
    /// Round to nearest, ties to even.
    Rn,
    /// Round toward zero: the fractional part is truncated.
    Rz,
    /// Round toward positive infinity.
    Rp,
    /// Round toward negative infinity.
    Rm,
}

impl RoundingMode {
    /// The encoding of this variant.
    pub open spec fn bits(self) -> u8 {
        match self {
            RoundingMode::Rn => 0,
            RoundingMode::Rz => 1,
            RoundingMode::Rp => 2,
            RoundingMode::Rm => 3,
        }
    }

    /// The variant a raw bit pattern decodes to. Decoding is total:
    /// every unmapped pattern decodes to `RoundingMode::Rn`, since the
    /// hardware may present encodings outside the documented set.
    pub open spec fn of_bits(bits: u8) -> RoundingMode {
        if bits == 1 {
            RoundingMode::Rz
        } else if bits == 2 {
            RoundingMode::Rp
        } else if bits == 3 {
            RoundingMode::Rm
        } else {
            RoundingMode::Rn
        }
    }

    pub fn to_bits(self) -> (r: u8)
        ensures
            r == self.bits(),
    {
        match self {
            RoundingMode::Rn => 0,
            RoundingMode::Rz => 1,
            RoundingMode::Rp => 2,
            RoundingMode::Rm => 3,
        }
    }

    pub fn from_bits(bits: u8) -> (r: RoundingMode)
        ensures
            r == RoundingMode::of_bits(bits),
    {
        if bits == 1 {
            RoundingMode::Rz
        } else if bits == 2 {
            RoundingMode::Rp
        } else if bits == 3 {
            RoundingMode::Rm
        } else {
            RoundingMode::Rn
        }
    }
}

/// Law: encoding any defined variant and decoding the result returns the
/// same variant.
pub proof fn lemma_rounding_mode_round_trip(v: RoundingMode)
    ensures
        RoundingMode::of_bits(v.bits()) == v,
{
}

/// The `revision_implementation` control register, read-only.
#[derive(Clone, Copy, PartialEq, Eq, Structural, Debug)]
pub struct ImplementationRevisionReg(pub u32);

impl ImplementationRevisionReg {
    /// Field `revision`: bits 0..=7.
    pub fn revision(&self) -> (r: u8)
        ensures
            r as u32 == field_get32(self.0, 0, 8),
    {
        proof {
            lemma_get32_fits_u8(self.0, 0, 8);
        }
        extract32(self.0, 0, 8) as u8
    }

    /// Field `implementation`: bits 8..=15.
    pub fn implementation(&self) -> (r: u8)
        ensures
            r as u32 == field_get32(self.0, 8, 8),
    {
        proof {
            lemma_get32_fits_u8(self.0, 8, 8);
        }
        extract32(self.0, 8, 8) as u8
    }
}

/// The floating-point `control_status` register.
#[derive(Clone, Copy, PartialEq, Eq, Structural, Debug)]
pub struct ControlStatusReg(pub u32);

impl ControlStatusReg {
    /// Field `rm`: bits 0..=1.
    pub fn rm(&self) -> (r: RoundingMode)
        ensures
            r == RoundingMode::of_bits(field_get32(self.0, 0, 2) as u8),
    {
        proof {
            lemma_get32_fits_u8(self.0, 0, 2);
        }
        RoundingMode::from_bits(extract32(self.0, 0, 2) as u8)
    }

    /// Returns `self` with field `rm` (bits 0..=1) set to `value`.
    pub fn with_rm(self, value: RoundingMode) -> (r: Self)
        ensures
            r.0 == field_set32(self.0, 0, 2, value.bits() as u32),
    {
        ControlStatusReg(deposit32(self.0, 0, 2, value.to_bits() as u32))
    }

    /// All sticky exception flags: bits 2..=6.
    pub fn flags(&self) -> (r: u8)
        ensures
            r as u32 == field_get32(self.0, 2, 5),
    {
        proof {
            lemma_get32_fits_u8(self.0, 2, 5);
        }
        extract32(self.0, 2, 5) as u8
    }

    /// Returns `self` with field `flags` (bits 2..=6) set to `value`.
    pub fn with_flags(self, value: u8) -> (r: Self)
        ensures
            r.0 == field_set32(self.0, 2, 5, value as u32),
    {
        ControlStatusReg(deposit32(self.0, 2, 5, value as u32))
    }

    /// Field `flag_inexact`: bit 2.
    pub fn flag_inexact(&self) -> (r: bool)
        ensures
            r == (field_get32(self.0, 2, 1) == 1),
    {
        extract32(self.0, 2, 1) == 1
    }

    /// Returns `self` with field `flag_inexact` (bit 2) set to `value`.
    pub fn with_flag_inexact(self, value: bool) -> (r: Self)
        ensures
            r.0 == field_set32(self.0, 2, 1, bit_of(value)),
    {
        ControlStatusReg(deposit32(self.0, 2, 1, if value { 1 } else { 0 }))
    }

    /// Field `flag_underflow`: bit 3.
    pub fn flag_underflow(&self) -> (r: bool)
        ensures
            r == (field_get32(self.0, 3, 1) == 1),
    {
        extract32(self.0, 3, 1) == 1
    }

    /// Returns `self` with field `flag_underflow` (bit 3) set to `value`.
    pub fn with_flag_underflow(self, value: bool) -> (r: Self)
        ensures
            r.0 == field_set32(self.0, 3, 1, bit_of(value)),
    {
        ControlStatusReg(deposit32(self.0, 3, 1, if value { 1 } else { 0 }))
    }

    /// Field `flag_overflow`: bit 4.
    pub fn flag_overflow(&self) -> (r: bool)
        ensures
            r == (field_get32(self.0, 4, 1) == 1),
    {
        extract32(self.0, 4, 1) == 1
    }

    /// Returns `self` with field `flag_overflow` (bit 4) set to `value`.
    pub fn with_flag_overflow(self, value: bool) -> (r: Self)
        ensures
            r.0 == field_set32(self.0, 4, 1, bit_of(value)),
    {
        ControlStatusReg(deposit32(self.0, 4, 1, if value { 1 } else { 0 }))
    }

    /// Field `flag_divzero`: bit 5.
    pub fn flag_divzero(&self) -> (r: bool)
        ensures
            r == (field_get32(self.0, 5, 1) == 1),
    {
        extract32(self.0, 5, 1) == 1
    }

    /// Returns `self` with field `flag_divzero` (bit 5) set to `value`.
    pub fn with_flag_divzero(self, value: bool) -> (r: Self)
        ensures
            r.0 == field_set32(self.0, 5, 1, bit_of(value)),
    {
        ControlStatusReg(deposit32(self.0, 5, 1, if value { 1 } else { 0 }))
    }

    /// Field `flag_invalid`: bit 6.
    pub fn flag_invalid(&self) -> (r: bool)
        ensures
            r == (field_get32(self.0, 6, 1) == 1),
    {
        extract32(self.0, 6, 1) == 1
    }

    /// Returns `self` with field `flag_invalid` (bit 6) set to `value`.
    pub fn with_flag_invalid(self, value: bool) -> (r: Self)
        ensures
            r.0 == field_set32(self.0, 6, 1, bit_of(value)),
    {
        ControlStatusReg(deposit32(self.0, 6, 1, if value { 1 } else { 0 }))
    }

    /// All exception enables: bits 7..=11.
    pub fn enables(&self) -> (r: u8)
        ensures
            r as u32 == field_get32(self.0, 7, 5),
    {
        proof {
            lemma_get32_fits_u8(self.0, 7, 5);
        }
        extract32(self.0, 7, 5) as u8
    }

    /// Returns `self` with field `enables` (bits 7..=11) set to `value`.
    pub fn with_enables(self, value: u8) -> (r: Self)
        ensures
            r.0 == field_set32(self.0, 7, 5, value as u32),
    {
        ControlStatusReg(deposit32(self.0, 7, 5, value as u32))
    }

    /// Field `enable_inexact`: bit 7.
    pub fn enable_inexact(&self) -> (r: bool)
        ensures
            r == (field_get32(self.0, 7, 1) == 1),
    {
        extract32(self.0, 7, 1) == 1
    }

    /// Returns `self` with field `enable_inexact` (bit 7) set to `value`.
    pub fn with_enable_inexact(self, value: bool) -> (r: Self)
        ensures
            r.0 == field_set32(self.0, 7, 1, bit_of(value)),
    {
        ControlStatusReg(deposit32(self.0, 7, 1, if value { 1 } else { 0 }))
    }

    /// Field `enable_underflow`: bit 8.
    pub fn enable_underflow(&self) -> (r: bool)
        ensures
            r == (field_get32(self.0, 8, 1) == 1),
    {
        extract32(self.0, 8, 1) == 1
    }

    /// Returns `self` with field `enable_underflow` (bit 8) set to `value`.
    pub fn with_enable_underflow(self, value: bool) -> (r: Self)
        ensures
            r.0 == field_set32(self.0, 8, 1, bit_of(value)),
    {
        ControlStatusReg(deposit32(self.0, 8, 1, if value { 1 } else { 0 }))
    }

    /// Field `enable_overflow`: bit 9.
    pub fn enable_overflow(&self) -> (r: bool)
        ensures
            r == (field_get32(self.0, 9, 1) == 1),
    {
        extract32(self.0, 9, 1) == 1
    }

    /// Returns `self` with field `enable_overflow` (bit 9) set to `value`.
    pub fn with_enable_overflow(self, value: bool) -> (r: Self)
        ensures
            r.0 == field_set32(self.0, 9, 1, bit_of(value)),
    {
        ControlStatusReg(deposit32(self.0, 9, 1, if value { 1 } else { 0 }))
    }

    /// Field `enable_divzero`: bit 10.
    pub fn enable_divzero(&self) -> (r: bool)
        ensures
            r == (field_get32(self.0, 10, 1) == 1),
    {
        extract32(self.0, 10, 1) == 1
    }

    /// Returns `self` with field `enable_divzero` (bit 10) set to `value`.
    pub fn with_enable_divzero(self, value: bool) -> (r: Self)
        ensures
            r.0 == field_set32(self.0, 10, 1, bit_of(value)),
    {
        ControlStatusReg(deposit32(self.0, 10, 1, if value { 1 } else { 0 }))
    }

    /// Field `enable_invalid`: bit 11.
    pub fn enable_invalid(&self) -> (r: bool)
        ensures
            r == (field_get32(self.0, 11, 1) == 1),
    {
        extract32(self.0, 11, 1) == 1
    }

    /// Returns `self` with field `enable_invalid` (bit 11) set to `value`.
    pub fn with_enable_invalid(self, value: bool) -> (r: Self)
        ensures
            r.0 == field_set32(self.0, 11, 1, bit_of(value)),
    {
        ControlStatusReg(deposit32(self.0, 11, 1, if value { 1 } else { 0 }))
    }

    /// All exception causes: bits 12..=17.
    pub fn causes(&self) -> (r: u8)
        ensures
            r as u32 == field_get32(self.0, 12, 6),
    {
        proof {
            lemma_get32_fits_u8(self.0, 12, 6);
        }
        extract32(self.0, 12, 6) as u8
    }

    /// Returns `self` with field `causes` (bits 12..=17) set to `value`.
    pub fn with_causes(self, value: u8) -> (r: Self)
        ensures
            r.0 == field_set32(self.0, 12, 6, value as u32),
    {
        ControlStatusReg(deposit32(self.0, 12, 6, value as u32))
    }

    /// Field `cause_inexact`: bit 12.
    pub fn cause_inexact(&self) -> (r: bool)
        ensures
            r == (field_get32(self.0, 12, 1) == 1),
    {
        extract32(self.0, 12, 1) == 1
    }

    /// Returns `self` with field `cause_inexact` (bit 12) set to `value`.
    pub fn with_cause_inexact(self, value: bool) -> (r: Self)
        ensures
            r.0 == field_set32(self.0, 12, 1, bit_of(value)),
    {
        ControlStatusReg(deposit32(self.0, 12, 1, if value { 1 } else { 0 }))
    }

    /// Field `cause_underflow`: bit 13.
    pub fn cause_underflow(&self) -> (r: bool)
        ensures
            r == (field_get32(self.0, 13, 1) == 1),
    {
        extract32(self.0, 13, 1) == 1
    }

    /// Returns `self` with field `cause_underflow` (bit 13) set to `value`.
    pub fn with_cause_underflow(self, value: bool) -> (r: Self)
        ensures
            r.0 == field_set32(self.0, 13, 1, bit_of(value)),
    {
        ControlStatusReg(deposit32(self.0, 13, 1, if value { 1 } else { 0 }))
    }

    /// Field `cause_overflow`: bit 14.
    pub fn cause_overflow(&self) -> (r: bool)
        ensures
            r == (field_get32(self.0, 14, 1) == 1),
    {
        extract32(self.0, 14, 1) == 1
    }

    /// Returns `self` with field `cause_overflow` (bit 14) set to `value`.
    pub fn with_cause_overflow(self, value: bool) -> (r: Self)
        ensures
            r.0 == field_set32(self.0, 14, 1, bit_of(value)),
    {
        ControlStatusReg(deposit32(self.0, 14, 1, if value { 1 } else { 0 }))
    }

    /// Field `cause_divzero`: bit 15.
    pub fn cause_divzero(&self) -> (r: bool)
        ensures
            r == (field_get32(self.0, 15, 1) == 1),
    {
        extract32(self.0, 15, 1) == 1
    }

    /// Returns `self` with field `cause_divzero` (bit 15) set to `value`.
    pub fn with_cause_divzero(self, value: bool) -> (r: Self)
        ensures
            r.0 == field_set32(self.0, 15, 1, bit_of(value)),
    {
        ControlStatusReg(deposit32(self.0, 15, 1, if value { 1 } else { 0 }))
    }

    /// Field `cause_invalid`: bit 16.
    pub fn cause_invalid(&self) -> (r: bool)
        ensures
            r == (field_get32(self.0, 16, 1) == 1),
    {
        extract32(self.0, 16, 1) == 1
    }

    /// Returns `self` with field `cause_invalid` (bit 16) set to `value`.
    pub fn with_cause_invalid(self, value: bool) -> (r: Self)
        ensures
            r.0 == field_set32(self.0, 16, 1, bit_of(value)),
    {
        ControlStatusReg(deposit32(self.0, 16, 1, if value { 1 } else { 0 }))
    }

    /// Field `cause_unimplemented`: bit 17.
    pub fn cause_unimplemented(&self) -> (r: bool)
        ensures
            r == (field_get32(self.0, 17, 1) == 1),
    {
        extract32(self.0, 17, 1) == 1
    }

    /// Returns `self` with field `cause_unimplemented` (bit 17) set to `value`.
    pub fn with_cause_unimplemented(self, value: bool) -> (r: Self)
        ensures
            r.0 == field_set32(self.0, 17, 1, bit_of(value)),
    {
        ControlStatusReg(deposit32(self.0, 17, 1, if value { 1 } else { 0 }))
    }

    /// Condition bit set by a floating-point compare operation: bit 23.
    pub fn c(&self) -> (r: bool)
        ensures
            r == (field_get32(self.0, 23, 1) == 1),
    {
        extract32(self.0, 23, 1) == 1
    }

    /// Returns `self` with field `c` (bit 23) set to `value`.
    pub fn with_c(self, value: bool) -> (r: Self)
        ensures
            r.0 == field_set32(self.0, 23, 1, bit_of(value)),
    {
        ControlStatusReg(deposit32(self.0, 23, 1, if value { 1 } else { 0 }))
    }

    /// Flush denormalized results to zero instead of trapping: bit 24.
    pub fn fs(&self) -> (r: bool)
        ensures
            r == (field_get32(self.0, 24, 1) == 1),
    {
        extract32(self.0, 24, 1) == 1
    }

    /// Returns `self` with field `fs` (bit 24) set to `value`.
    pub fn with_fs(self, value: bool) -> (r: Self)
        ensures
            r.0 == field_set32(self.0, 24, 1, bit_of(value)),
    {
        ControlStatusReg(deposit32(self.0, 24, 1, if value { 1 } else { 0 }))
    }
}

} // verus!
