//! The processor's view of memory: a sixteen-bit address space answered
//! byte by byte, and a flat read/write memory that implements it.

use crate::bytes::{add16, make_word, word, wrap16};
use crate::history::{ring_push, History};
use vstd::prelude::*;

verus! {

/// An access that the address space answered without storage behind it.
#[derive(Clone, Copy, Debug, PartialEq, Eq, Structural)]
pub enum Diagnostic {
    /// A read beyond the end of a backing array; it was answered with zero.
    ReadOutOfRange { address: u16 },
    /// A write beyond the end of a backing array; it was dropped.
    WriteOutOfRange { address: u16, value: u8 },
    /// A read of an input/output register that is not implemented; it
    /// was answered with zero.
    UnmappedRead { address: u16 },
    /// A write to an input/output register that is not implemented; it
    /// was dropped.
    UnmappedWrite { address: u16, value: u8 },
}

/// Number of diagnostics a [`Memory`] made by [`Memory::new`] keeps.
pub const DEFAULT_DIAGNOSTICS: usize = 64;

/// An address space as the processor sees it.
///
/// The model of a memory is its view. Reads may change the model (a
/// peripheral register can clear itself when read), so both kinds of
/// access are described by functions from model to model.
pub trait Memory6502: View + Sized {
    /// The byte that a read of `address` returns, and the model afterwards.
    spec fn spec_read(model: Self::V, address: u16) -> (u8, Self::V);

    /// The model after `value` has been written to `address`.
    spec fn spec_write(model: Self::V, address: u16, value: u8) -> Self::V;

    /// True when `address` is answered by an ordinary storage cell
    /// whatever is later written or read elsewhere.
    spec fn plain(model: Self::V, address: u16) -> bool;

    /// An ordinary storage cell returns what was last written to it, is
    /// not changed by being read, and is not disturbed by accesses to
    /// other addresses.
    proof fn lemma_plain(model: Self::V, address: u16, other: u16, value: u8)
        requires
            Self::plain(model, address),
        ensures
            Self::spec_read(model, address).1 == model,
            Self::spec_read(Self::spec_write(model, address, value), address).0 == value,
            Self::plain(Self::spec_write(model, other, value), address),
            Self::plain(Self::spec_read(model, other).1, address),
            Self::spec_read(Self::spec_read(model, other).1, address).0 == Self::spec_read(
                model,
                address,
            ).0,
            other != address ==> Self::spec_read(
                Self::spec_write(model, other, value),
                address,
            ).0 == Self::spec_read(model, address).0,
    ;

    /// Stores `value` at `address`.
    fn write_memory(&mut self, address: u16, value: u8)
        ensures
            final(self)@ == Self::spec_write(old(self)@, address, value),
    ;

    /// Loads the byte at `address`.
    fn read_memory(&mut self, address: u16) -> (value: u8)
        ensures
            value == Self::spec_read(old(self)@, address).0,
            final(self)@ == Self::spec_read(old(self)@, address).1,
    ;

    /// Loads the little-endian word whose low byte is at `address`; the
    /// high byte is read from the next address, wrapping at 0xFFFF.
    fn read_memory_word(&mut self, address: u16) -> (value: u16)
        ensures
            value == word(
                Self::spec_read(old(self)@, address).0,
                Self::spec_read(Self::spec_read(old(self)@, address).1, wrap16(address + 1)).0,
            ),
            final(self)@ == Self::spec_read(
                Self::spec_read(old(self)@, address).1,
                wrap16(address + 1),
            ).1,
    ;
}

/// A word read as two byte reads, low byte first.
pub open spec fn spec_read_word<M: Memory6502>(model: M::V, address: u16) -> (u16, M::V) {
    let low = M::spec_read(model, address);
    let high = M::spec_read(low.1, wrap16(address + 1));
    (word(low.0, high.0), high.1)
}

/// Read-only windows for diagnostics.
pub trait Memory6502Debug: Memory6502 {
    /// The byte of general storage at `address`, peripherals and
    /// overlays aside; zero where there is no storage.
    spec fn spec_raw(model: Self::V, address: u16) -> u8;

    /// The sixteen bytes at the top of the stack page, 0x01F0 to 0x01FF.
    fn show_stack(&self) -> (bytes: Vec<u8>)
        ensures
            bytes@.len() == 16,
            forall|i: int|
                0 <= i < 16 ==> bytes@[i] == Self::spec_raw(self@, (0x01f0 + i) as u16),
    ;

    /// The 256 bytes of the zero page.
    fn show_zero_page(&self) -> (bytes: Vec<u8>)
        ensures
            bytes@.len() == 256,
            forall|i: int| 0 <= i < 256 ==> bytes@[i] == Self::spec_raw(self@, i as u16),
    ;
}

/// Model of a [`Memory`].
pub struct MemoryModel {
    /// The storage cells, address 0 first.
    pub cells: Seq<u8>,
    /// The recorded diagnostics, oldest first.
    pub log: Seq<Diagnostic>,
    /// How many diagnostics are kept.
    pub log_limit: nat,
}

/// Flat read/write memory of a given size, starting at address 0.
/// Addresses beyond its size read as zero and ignore writes; each such
/// access is recorded as a diagnostic.
#[derive(Debug)]
pub struct Memory {
    memory: Vec<u8>,
    log: History<Diagnostic>,
}

impl View for Memory {
    type V = MemoryModel;

    closed spec fn view(&self) -> MemoryModel {
        MemoryModel { cells: self.memory@, log: self.log@, log_limit: self.log.limit() }
    }
}

impl Memory {
    /// A zeroed memory of `size` bytes.
    pub fn new(size: usize) -> (memory: Self)
        ensures
            memory@.cells == Seq::new(size as nat, |i: int| 0u8),
            memory@.log == Seq::<Diagnostic>::empty(),
            memory@.log_limit == DEFAULT_DIAGNOSTICS,
    {
        Memory::with_diagnostics(size, DEFAULT_DIAGNOSTICS)
    }

    /// A zeroed memory of `size` bytes that keeps up to `log_limit`
    /// diagnostics.
    pub fn with_diagnostics(size: usize, log_limit: usize) -> (memory: Self)
        ensures
            memory@.cells == Seq::new(size as nat, |i: int| 0u8),
            memory@.log == Seq::<Diagnostic>::empty(),
            memory@.log_limit == log_limit,
    {
        let memory = vec![0u8; size];
        assert(memory@ =~= Seq::new(size as nat, |i: int| 0u8));
        Memory { memory, log: History::new(log_limit) }
    }

    /// A memory holding `image`, its first byte at address 0.
    pub fn from_image(image: Vec<u8>) -> (memory: Self)
        ensures
            memory@.cells == image@,
            memory@.log == Seq::<Diagnostic>::empty(),
            memory@.log_limit == DEFAULT_DIAGNOSTICS,
    {
        Memory { memory: image, log: History::new(DEFAULT_DIAGNOSTICS) }
    }

    /// Size in bytes.
    pub fn size(&self) -> (size: usize)
        ensures
            size == self@.cells.len(),
    {
        self.memory.len()
    }

    /// The recorded diagnostics, oldest first.
    pub fn diagnostics(&self) -> (entries: Vec<Diagnostic>)
        ensures
            entries@ == self@.log,
    {
        self.log.to_vec()
    }

    /// The storage cells, address 0 first.
    pub fn cells(&self) -> (cells: &Vec<u8>)
        ensures
            cells@ == self@.cells,
    {
        &self.memory
    }
}

impl Memory6502 for Memory {
    open spec fn spec_read(model: MemoryModel, address: u16) -> (u8, MemoryModel) {
        if address < model.cells.len() {
            (model.cells[address as int], model)
        } else {
            (
                0u8,
                MemoryModel {
                    log: ring_push(
                        model.log,
                        model.log_limit,
                        Diagnostic::ReadOutOfRange { address },
                    ),
                    ..model
                },
            )
        }
    }

    open spec fn spec_write(model: MemoryModel, address: u16, value: u8) -> MemoryModel {
        if address < model.cells.len() {
            MemoryModel { cells: model.cells.update(address as int, value), ..model }
        } else {
            MemoryModel {
                log: ring_push(
                    model.log,
                    model.log_limit,
                    Diagnostic::WriteOutOfRange { address, value },
                ),
                ..model
            }
        }
    }

    open spec fn plain(model: MemoryModel, address: u16) -> bool {
        address < model.cells.len()
    }

    proof fn lemma_plain(model: MemoryModel, address: u16, other: u16, value: u8) {
    }

    fn write_memory(&mut self, address: u16, value: u8) {
        if (address as usize) < self.memory.len() {
            self.memory.set(address as usize, value);
        } else {
            self.log.push(Diagnostic::WriteOutOfRange { address, value });
        }
    }

    fn read_memory(&mut self, address: u16) -> (value: u8) {
        if (address as usize) < self.memory.len() {
            self.memory[address as usize]
        } else {
            self.log.push(Diagnostic::ReadOutOfRange { address });
            0
        }
    }

    fn read_memory_word(&mut self, address: u16) -> (value: u16) {
        let lo = self.read_memory(address);
        let hi = self.read_memory(add16(address, 1));
        make_word(lo, hi)
    }
}

impl Memory6502Debug for Memory {
    open spec fn spec_raw(model: MemoryModel, address: u16) -> u8 {
        if address < model.cells.len() {
            model.cells[address as int]
        } else {
            0u8
        }
    }

    fn show_stack(&self) -> (bytes: Vec<u8>) {
        self.window(0x01f0, 16)
    }

    fn show_zero_page(&self) -> (bytes: Vec<u8>) {
        self.window(0, 256)
    }
}

impl Memory {
    /// Copies `count` bytes starting at `start`, zero where the memory
    /// has ended.
    fn window(&self, start: u16, count: u16) -> (bytes: Vec<u8>)
        requires
            start + count <= 0x10000,
        ensures
            bytes@.len() == count,
            forall|i: int|
                0 <= i < count ==> bytes@[i] == <Memory as Memory6502Debug>::spec_raw(
                    self@,
                    (start + i) as u16,
                ),
    {
        let mut bytes: Vec<u8> = Vec::new();
        let mut i: u16 = 0;
        while i < count
            invariant
                i <= count,
                start + count <= 0x10000,
                bytes@.len() == i,
                forall|k: int|
                    0 <= k < i ==> bytes@[k] == <Memory as Memory6502Debug>::spec_raw(
                        self@,
                        (start + k) as u16,
                    ),
            decreases count - i,
        {
            let at: usize = start as usize + i as usize;
            let byte: u8 = if at < self.memory.len() {
                self.memory[at]
            } else {
                0
            };
            bytes.push(byte);
            i += 1;
        }
        bytes
    }
}

} // verus!
