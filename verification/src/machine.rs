//! The register file and the machine it forms together with a memory
//! mapper: program bank, program counter, data bank, accumulator and
//! processor flags, plus the primitive fetch, read and write operations that
//! the addressing resolvers and instruction handlers build on.

use crate::memory::Mapper;
use crate::width::{hi_byte, lo_byte, word_le};
use vstd::prelude::*;

verus! {

/// Interrupt-disable flag bit.
pub const FLAG_NO_IRQ: u8 = 0x04;

/// Accumulator width-select flag bit: set means the accumulator and its
/// operands are 16-bit quantities, clear means 8-bit.
pub const FLAG_A16: u8 = 0x20;

/// Whether the width-select flag chooses 16-bit operation.
pub open spec fn width16(flags: u8) -> bool {
    flags & FLAG_A16 != 0
}

/// The successor of a 16-bit quantity, wrapping modulo 2^16.  Advancing the
/// program counter uses this, so crossing the 64KB boundary wraps to zero
/// and never touches the program bank; the second byte of a 16-bit data
/// access wraps within its bank the same way.
pub open spec fn wrap_inc(x: u16) -> u16 {
    if x == 0xffff {
        0
    } else {
        (x + 1) as u16
    }
}

/// The registers of the emulated processor.  The accumulator is a 16-bit
/// storage cell whose effective width is decided by the width-select flag in
/// `flags`; the program counter wraps modulo 2^16 without altering the
/// program bank.
pub struct Registers {
    /// Program bank: upper 8 bits of the address code is fetched from.
    pub pb: u8,
    /// Program counter: 16-bit offset of the next code byte within `pb`.
    pub pc: u16,
    /// Data bank: upper 8 bits of the address absolute data accesses use.
    pub db: u8,
    /// Accumulator storage cell.
    pub a: u16,
    /// Processor flags.
    pub flags: u8,
}

/// One emulated CPU: its registers and the memory mapper it is wired to.
/// Exactly one decode-execute step owns both for its duration; making the
/// pair an explicitly owned value keeps multiple emulator instances
/// independent.
pub struct Cpu<M: Mapper> {
    pub mapper: M,
    pub registers: Registers,
}

impl<M: Mapper> Cpu<M> {
    /// The code byte at offset `pc` within the current program bank.
    pub open spec fn code_byte(self, pc: u16) -> u8 {
        self.mapper.byte_at(self.registers.pb, pc)
    }

    /// The data byte at offset `addr` within the current data bank.
    pub open spec fn data_byte(self, addr: u16) -> u8 {
        self.mapper.byte_at(self.registers.db, addr)
    }

    /// Fetch one byte from the instruction stream: read the byte the
    /// program counter points at, then advance the counter with wraparound.
    /// The program bank is never altered, even when the counter wraps.
    pub fn fetch(&mut self) -> (b: u8)
        ensures
            b == old(self).code_byte(old(self).registers.pc),
            final(self).registers.pc == wrap_inc(old(self).registers.pc),
            final(self).registers.pb == old(self).registers.pb,
            final(self).registers.db == old(self).registers.db,
            final(self).registers.a == old(self).registers.a,
            final(self).registers.flags == old(self).registers.flags,
            final(self).mapper == old(self).mapper,
    {
        let byte = self.mapper.read(self.registers.pb, self.registers.pc);
        let pc = self.registers.pc;
        self.registers.pc = if pc == 0xffff {
            0
        } else {
            pc + 1
        };
        byte
    }

    /// Read one byte from memory.
    pub fn read8(&self, bank: u8, offset: u16) -> (b: u8)
        ensures
            b == self.mapper.byte_at(bank, offset),
    {
        self.mapper.read(bank, offset)
    }

    /// Read a 16-bit value from memory: two sequential byte reads at
    /// consecutive offsets within the same bank, combined little-endian.
    /// The second offset wraps within the bank.
    pub fn read16(&self, bank: u8, offset: u16) -> (w: u16)
        ensures
            w == word_le(
                self.mapper.byte_at(bank, offset),
                self.mapper.byte_at(bank, wrap_inc(offset)),
            ),
    {
        let lo = self.mapper.read(bank, offset);
        let next = if offset == 0xffff {
            0
        } else {
            offset + 1
        };
        let hi = self.mapper.read(bank, next);
        (lo as u16) | ((hi as u16) << 8)
    }

    /// Write one byte to memory, leaving every other cell unchanged and the
    /// registers untouched.
    pub fn write8(&mut self, bank: u8, offset: u16, value: u8)
        ensures
            final(self).registers == old(self).registers,
            forall|bk: u8, of: u16|
                #[trigger] final(self).mapper.byte_at(bk, of) == if bk == bank && of == offset {
                    value
                } else {
                    old(self).mapper.byte_at(bk, of)
                },
    {
        self.mapper.write(bank, offset, value);
    }

    /// Write a 16-bit value to memory little-endian: the low byte at
    /// `offset`, the high byte at the next offset within the same bank,
    /// wrapping within the bank.  Every other cell and all registers are
    /// left unchanged.
    pub fn write16(&mut self, bank: u8, offset: u16, value: u16)
        ensures
            final(self).registers == old(self).registers,
            forall|bk: u8, of: u16|
                #[trigger] final(self).mapper.byte_at(bk, of) == if bk == bank && of == offset {
                    lo_byte(value)
                } else if bk == bank && of == wrap_inc(offset) {
                    hi_byte(value)
                } else {
                    old(self).mapper.byte_at(bk, of)
                },
    {
        proof {
            assert((value & 0x00ff) <= 0xff && (value >> 8) <= 0xff) by (bit_vector);
            assert(offset != wrap_inc(offset));
        }
        let lo = (value & 0x00ff) as u8;
        let hi = (value >> 8) as u8;
        self.mapper.write(bank, offset, lo);
        let next = if offset == 0xffff {
            0
        } else {
            offset + 1
        };
        self.mapper.write(bank, next, hi);
    }

    /// Set the given flag bits, leaving all other flag bits, every other
    /// register and memory unchanged.
    pub fn set_flag(&mut self, flags: u8)
        ensures
            final(self).registers.flags == (old(self).registers.flags | flags),
            final(self).registers.pb == old(self).registers.pb,
            final(self).registers.pc == old(self).registers.pc,
            final(self).registers.db == old(self).registers.db,
            final(self).registers.a == old(self).registers.a,
            final(self).mapper == old(self).mapper,
    {
        self.registers.flags = self.registers.flags | flags;
    }

    /// Reset the processor to its architecture-defined initial state: the
    /// program counter is loaded little-endian from the reset vector at
    /// bank 0, offsets 0xfffc and 0xfffd; banks and accumulator clear to
    /// zero; interrupts are disabled and the width-select flag starts clear
    /// (8-bit mode).  Memory is not modified.
    pub fn reset(&mut self)
        ensures
            final(self).registers.pc == word_le(
                old(self).mapper.byte_at(0, 0xfffc),
                old(self).mapper.byte_at(0, 0xfffd),
            ),
            final(self).registers.pb == 0,
            final(self).registers.db == 0,
            final(self).registers.a == 0,
            final(self).registers.flags == FLAG_NO_IRQ,
            final(self).mapper == old(self).mapper,
    {
        let lo = self.mapper.read(0, 0xfffc);
        let hi = self.mapper.read(0, 0xfffd);
        self.registers = Registers {
            pb: 0,
            pc: (lo as u16) | ((hi as u16) << 8),
            db: 0,
            a: 0,
            flags: FLAG_NO_IRQ,
        };
    }
}

/// Program-counter wraparound never leaks into the program bank: advancing
/// the counter past the 64KB boundary yields offset zero in the same bank.
pub proof fn lemma_pc_wraparound()
    ensures
        wrap_inc(0xffff) == 0,
        forall|pc: u16| pc != 0xffff ==> #[trigger] wrap_inc(pc) == pc + 1,
{
}

} // verus!
