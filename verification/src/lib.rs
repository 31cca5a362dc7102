//! Register access layer for the Nintendo 64's memory-mapped peripherals and
//! its coprocessor registers.
//!
//! The crate separates three concerns:
//! - a bit-field codec ([`field`]) that cuts named sub-values out of raw
//!   register words and deposits them back;
//! - typed register cells ([`RW`], [`RO`], [`WO`], [`DualView`]) placed at
//!   fixed byte addresses inside a register region ([`memory::MmioRegion`]),
//!   grouped into one block per device (`mi`, `vi`, `ai`, `pi`, `si`);
//! - the coprocessor register files ([`cp0::Cp0`], [`cp1::Cp1`]), reached by
//!   register index rather than by address.
//!
//! A single [`Hardware`] value bundles every device; an [`Arbiter`] hands out
//! at most one such value through [`Hardware::take`], with
//! [`Hardware::steal`] as the documented bypass.
//!
//! A read-modify-write sequence is two separate transactions: if another
//! execution context (an interrupt handler) stores to the same register
//! between them, that store is lost. No operation here masks interrupts; the
//! caller keeps the two contexts apart or accepts the hazard.

use vstd::prelude::*;

pub mod ai;
pub mod cp0;
pub mod cp1;
pub mod field;
pub mod memory;
pub mod mi;
pub mod pi;
pub mod si;
pub mod vi;

use crate::memory::MmioRegion;
use core::marker::PhantomData;

verus! {

/// A value that travels through one 32-bit register: a plain word or a typed
/// wrapper around one. Conversion is lossless in both directions.
pub trait RegValue: Copy + Sized {
    /// The raw 32-bit word this value stands for.
    spec fn raw_of(self) -> u32;

    /// The value that a raw word decodes to.
    spec fn of_raw(raw: u32) -> Self;

    /// Decoding a raw word and re-encoding it yields the same word.
    proof fn lemma_of_raw_inverse(raw: u32)
        ensures
            Self::of_raw(raw).raw_of() == raw,
    ;

    fn to_raw(self) -> (r: u32)
        ensures
            r == self.raw_of(),
    ;

    fn from_raw(raw: u32) -> (v: Self)
        ensures
            v == Self::of_raw(raw),
    ;
}

impl RegValue for u32 {
    open spec fn raw_of(self) -> u32 {
        self
    }

    open spec fn of_raw(raw: u32) -> Self {
        raw
    }

    proof fn lemma_of_raw_inverse(raw: u32) {
    }

    fn to_raw(self) -> (r: u32) {
        self
    }

    fn from_raw(raw: u32) -> (v: Self) {
        raw
    }
}

/// A readable and writable register cell: a typed view of one 32-bit word at
/// a fixed byte address. The cell holds no data; the word lives in the
/// region handed to each access.
pub struct RW<T> {
    addr: u32,
    marker: PhantomData<T>,
}

impl<T: RegValue> RW<T> {
    /// The byte address of the word this cell accesses.
    pub closed spec fn addr(self) -> u32 {
        self.addr
    }

    /// Places a cell at `addr`.
    pub fn at(addr: u32) -> (r: Self)
        ensures
            r.addr() == addr,
    {
        RW { addr, marker: PhantomData }
    }

    /// One load of the cell's word, decoded.
    pub fn read(&self, mem: &MmioRegion) -> (r: T)
        requires
            mem.wf(),
            mem.contains(self.addr()),
        ensures
            r == T::of_raw(mem.word_at(self.addr())),
    {
        T::from_raw(mem.load(self.addr))
    }

    /// One store of `value` to the cell's word.
    pub fn write(&self, mem: &mut MmioRegion, value: T)
        requires
            old(mem).wf(),
            old(mem).contains(self.addr()),
        ensures
            final(mem).wf(),
            final(mem).base() == old(mem).base(),
            final(mem).len_words() == old(mem).len_words(),
            final(mem).word_at(self.addr()) == value.raw_of(),
            forall|a: u32|
                old(mem).contains(a) && a != self.addr() ==> final(mem).word_at(a) == old(mem).word_at(a),
    {
        mem.store(self.addr, value.to_raw());
    }

    /// One load, `func` applied to the loaded value, one store of the result.
    ///
    /// The two transactions are not atomic: a store to the same word from
    /// another execution context between them is overwritten when the second
    /// transaction lands.
    pub fn modify<F: FnOnce(T) -> T>(&self, mem: &mut MmioRegion, func: F)
        requires
            old(mem).wf(),
            old(mem).contains(self.addr()),
            call_requires(func, (T::of_raw(old(mem).word_at(self.addr())),)),
        ensures
            final(mem).wf(),
            final(mem).base() == old(mem).base(),
            final(mem).len_words() == old(mem).len_words(),
            exists|m: T|
                call_ensures(func, (T::of_raw(old(mem).word_at(self.addr())),), m) && final(mem).word_at(self.addr()) == m.raw_of(),
            forall|a: u32|
                old(mem).contains(a) && a != self.addr() ==> final(mem).word_at(a) == old(mem).word_at(a),
    {
        let v = self.read(mem);
        let v2 = func(v);
        self.write(mem, v2);
    }
}

/// A read-only register cell.
pub struct RO<T> {
    addr: u32,
    marker: PhantomData<T>,
}

impl<T: RegValue> RO<T> {
    /// The byte address of the word this cell accesses.
    pub closed spec fn addr(self) -> u32 {
        self.addr
    }

    /// Places a cell at `addr`.
    pub fn at(addr: u32) -> (r: Self)
        ensures
            r.addr() == addr,
    {
        RO { addr, marker: PhantomData }
    }

    /// One load of the cell's word, decoded.
    pub fn read(&self, mem: &MmioRegion) -> (r: T)
        requires
            mem.wf(),
            mem.contains(self.addr()),
        ensures
            r == T::of_raw(mem.word_at(self.addr())),
    {
        T::from_raw(mem.load(self.addr))
    }
}

/// A write-only register cell.
pub struct WO<T> {
    addr: u32,
    marker: PhantomData<T>,
}

impl<T: RegValue> WO<T> {
    /// The byte address of the word this cell accesses.
    pub closed spec fn addr(self) -> u32 {
        self.addr
    }

    /// Places a cell at `addr`.
    pub fn at(addr: u32) -> (r: Self)
        ensures
            r.addr() == addr,
    {
        WO { addr, marker: PhantomData }
    }

    /// One store of `value` to the cell's word.
    pub fn write(&self, mem: &mut MmioRegion, value: T)
        requires
            old(mem).wf(),
            old(mem).contains(self.addr()),
        ensures
            final(mem).wf(),
            final(mem).base() == old(mem).base(),
            final(mem).len_words() == old(mem).len_words(),
            final(mem).word_at(self.addr()) == value.raw_of(),
            forall|a: u32|
                old(mem).contains(a) && a != self.addr() ==> final(mem).word_at(a) == old(mem).word_at(a),
    {
        mem.store(self.addr, value.to_raw());
    }
}

/// A dual-view register cell: one word whose bit layout differs between
/// reads and writes. Reading decodes the stored word under the read shape
/// `R`; writing encodes a write shape `W` and stores it whole, discarding
/// every bit of the previous word. No read-modify-write is offered: the two
/// shapes are not bit-compatible, so a caller constructs a full `W` value
/// instead of mutating a previously read `R`.
pub struct DualView<R, W> {
    addr: u32,
    read_marker: PhantomData<R>,
    write_marker: PhantomData<W>,
}

impl<R: RegValue, W: RegValue> DualView<R, W> {
    /// The byte address of the word this cell accesses.
    pub closed spec fn addr(self) -> u32 {
        self.addr
    }

    /// Places a cell at `addr`.
    pub fn at(addr: u32) -> (r: Self)
        ensures
            r.addr() == addr,
    {
        DualView { addr, read_marker: PhantomData, write_marker: PhantomData }
    }

    /// One load of the cell's word, decoded under the read shape.
    pub fn read(&self, mem: &MmioRegion) -> (r: R)
        requires
            mem.wf(),
            mem.contains(self.addr()),
        ensures
            r == R::of_raw(mem.word_at(self.addr())),
    {
        R::from_raw(mem.load(self.addr))
    }

    /// One store of the write shape's bits to the cell's word. Bits the
    /// write shape does not define are hardware-defined don't-cares and are
    /// never preserved from a prior read.
    pub fn write(&self, mem: &mut MmioRegion, value: W)
        requires
            old(mem).wf(),
            old(mem).contains(self.addr()),
        ensures
            final(mem).wf(),
            final(mem).base() == old(mem).base(),
            final(mem).len_words() == old(mem).len_words(),
            final(mem).word_at(self.addr()) == value.raw_of(),
            forall|a: u32|
                old(mem).contains(a) && a != self.addr() ==> final(mem).word_at(a) == old(mem).word_at(a),
    {
        mem.store(self.addr, value.to_raw());
    }
}

/// Law: writing a shape `first` through a dual-view cell stores exactly its
/// raw bits, and a later read yields the read shape computed strictly from
/// those stored bits under the read-shape codec. Any write shape `second`
/// with the same raw bits yields the same read shape: no hidden write-shape
/// state survives the store. The hypotheses are what [`DualView::write`] and
/// [`DualView::read`] ensure.
pub proof fn lemma_dual_view_read_from_stored<R: RegValue, W: RegValue>(
    first: W,
    second: W,
    stored: u32,
    read_back: R,
)
    requires
        stored == first.raw_of(),
        read_back == R::of_raw(stored),
        first.raw_of() == second.raw_of(),
    ensures
        read_back == R::of_raw(first.raw_of()),
        read_back == R::of_raw(second.raw_of()),
{
}

/// Law: a modify whose function hands back exactly the value it was given
/// leaves the stored raw word unchanged, for any register cell. The
/// hypotheses are precisely what [`RW::modify`] ensures, specialized to a
/// function whose contract forces identity.
pub proof fn lemma_modify_identity<T: RegValue, F: FnOnce(T) -> T>(
    word_before: u32,
    word_after: u32,
    func: F,
)
    requires
        forall|x: T, y: T| call_ensures(func, (x,), y) ==> y == x,
        exists|m: T|
            call_ensures(func, (T::of_raw(word_before),), m) && word_after == m.raw_of(),
    ensures
        word_after == word_before,
{
    T::lemma_of_raw_inverse(word_before);
}

/// The ownership arbiter's process-wide state: whether the single
/// coordinating [`Hardware`] handle has been issued. It starts unclaimed
/// and, once claimed, never returns to unclaimed — the hardware never goes
/// away for the life of the program.
pub struct Arbiter {
    taken: bool,
}

impl Arbiter {
    /// Whether a handle has been issued.
    pub closed spec fn claimed(self) -> bool {
        self.taken
    }

    /// The state at program start: unclaimed.
    pub fn new() -> (a: Arbiter)
        ensures
            !a.claimed(),
    {
        Arbiter { taken: false }
    }
}

/// Every hardware abstraction of the console: the coprocessor register
/// files and one handle per memory-mapped device block.
///
/// For safe use this type follows a singleton pattern: at most one value is
/// issued through [`Hardware::take`]. Where that is too restrictive,
/// [`Hardware::steal`] creates further values; a second live value invites
/// data races when interrupts are enabled, because a read-modify-write from
/// one context can swallow a write from the other.
pub struct Hardware {
    pub cp0: cp0::Cp0,
    pub cp1: cp1::Cp1,
    pub mi: mi::MipsInterface,
    pub vi: vi::VideoInterface,
    pub ai: ai::AudioInterface,
    pub pi: pi::PeripheralInterface,
    pub si: si::SerialInterface,
}

impl Hardware {
    /// Every register file is complete and every device block sits at its
    /// documented addresses.
    pub open spec fn wf(self) -> bool {
        &&& self.cp0.wf()
        &&& self.cp1.wf()
        &&& self.mi.r.wf()
        &&& self.vi.r.wf()
        &&& self.ai.r.wf()
        &&& self.pi.r.wf()
        &&& self.si.r.wf()
    }

    /// Attempts to take the singleton `Hardware` value. The attempt succeeds
    /// exactly when no value has been issued before; afterwards the arbiter
    /// is claimed either way. An absent result is the signalled "already
    /// claimed" outcome, not an error.
    pub fn take(arb: &mut Arbiter) -> (r: Option<Hardware>)
        ensures
            final(arb).claimed(),
            r is Some <==> !old(arb).claimed(),
            r matches Some(h) ==> h.wf(),
    {
        if arb.taken {
            None
        } else {
            Some(Self::steal(arb))
        }
    }

    /// Bypasses the singleton pattern: claims the arbiter and yields a new
    /// `Hardware` value regardless of the arbiter's prior state. The caller
    /// accepts the data-race hazard of holding more than one value while
    /// interrupts are enabled.
    pub fn steal(arb: &mut Arbiter) -> (r: Hardware)
        ensures
            final(arb).claimed(),
            r.wf(),
    {
        arb.taken = true;
        Hardware {
            cp0: cp0::Cp0::new(),
            cp1: cp1::Cp1::new(),
            mi: mi::MipsInterface::new(),
            vi: vi::VideoInterface::new(),
            ai: ai::AudioInterface::new(),
            pi: pi::PeripheralInterface::new(),
            si: si::SerialInterface::new(),
        }
    }
}

/// Law: in a sequential trace starting from an unclaimed arbiter, the first
/// `take` yields a handle and leaves the arbiter claimed, so the second
/// `take` yields nothing. (That `steal` always yields a handle is part of
/// its signature: it returns `Hardware` unconditionally.) The hypotheses are
/// the ensured outcomes of two successive [`Hardware::take`] calls.
pub proof fn lemma_single_owner(
    start: Arbiter,
    after_first: Arbiter,
    after_second: Arbiter,
    first_granted: bool,
    second_granted: bool,
)
    requires
        !start.claimed(),
        first_granted == !start.claimed(),
        after_first.claimed(),
        second_granted == !after_first.claimed(),
        after_second.claimed(),
    ensures
        first_granted,
        !second_granted,
{
}

} // verus!
