//! The width abstraction: how a register cell is read, written and
//! default-initialized at either 8-bit or 16-bit granularity, and the tagged
//! values through which resolvers hand width-correct results to instruction
//! handlers.

use vstd::prelude::*;

verus! {

/// The value of a 16-bit register cell after a write of `value` at the given
/// width: a 16-bit write replaces the whole cell, an 8-bit write replaces the
/// low byte and preserves the untouched high byte.
pub open spec fn write_at_width(wide: bool, reg: u16, value: u16) -> u16 {
    if wide {
        value
    } else {
        (reg & 0xff00) | (value & 0x00ff)
    }
}

/// The value read from a 16-bit register cell at the given width: the whole
/// cell in 16-bit mode, the low byte in 8-bit mode.
pub open spec fn read_at_width(wide: bool, reg: u16) -> u16 {
    if wide {
        reg
    } else {
        reg & 0x00ff
    }
}

/// Little-endian assembly of a 16-bit word from two bytes.
pub open spec fn word_le(lo: u8, hi: u8) -> u16 {
    (lo as u16) | ((hi as u16) << 8)
}

/// The low byte of a 16-bit word: the inverse of `word_le` in its first
/// argument.
pub open spec fn lo_byte(w: u16) -> u8 {
    (w & 0x00ff) as u8
}

/// The high byte of a 16-bit word: the inverse of `word_le` in its second
/// argument.
pub open spec fn hi_byte(w: u16) -> u8 {
    (w >> 8) as u8
}

/// Little-endian assembly and disassembly of a 16-bit word are inverses: a
/// word split into its low and high bytes reassembles to itself, and two
/// bytes assembled into a word are recovered exactly.
pub proof fn lemma_word_le_round_trip()
    by (bit_vector)
    ensures
        forall|w: u16| #[trigger] word_le(lo_byte(w), hi_byte(w)) == w,
        forall|lo: u8, hi: u8| #[trigger] lo_byte(word_le(lo, hi)) == lo,
        forall|lo: u8, hi: u8| #[trigger] hi_byte(word_le(lo, hi)) == hi,
{
}

/// For every register value and either width, writing the width's default
/// value and reading back at the same width yields zero, and an 8-bit write
/// always preserves the high-order byte of the cell.
pub proof fn lemma_default_write_read()
    by (bit_vector)
    ensures
        forall|wide: bool, reg: u16|
            #[trigger] read_at_width(wide, write_at_width(wide, reg, 0)) == 0,
        forall|reg: u16, v: u16|
            (#[trigger] write_at_width(false, reg, v)) & 0xff00 == reg & 0xff00,
{
}

/// The capability of reading, writing and default-initializing a register at
/// one width.  Exactly two instantiations exist, `u8` and `u16`; the contract
/// of each operation is stated through `write_at_width` / `read_at_width`, so
/// that width-dependent code can be specified once over the `wide` tag.
pub trait BitWidth: Sized + Copy {
    /// Whether this is the 16-bit instantiation.
    spec fn wide() -> bool;

    /// The carried value, widened to the full 16-bit cell.
    spec fn word(self) -> u16;

    /// The current value of the register at this width.
    fn get(reg: u16) -> (v: Self)
        ensures
            v.word() == read_at_width(Self::wide(), reg),
    ;

    /// Overwrite the register at this width, touching only the relevant bits.
    fn set(reg: &mut u16, value: Self)
        ensures
            *final(reg) == write_at_width(Self::wide(), *old(reg), value.word()),
    ;

    /// The zero value at this width.
    fn default() -> (v: Self)
        ensures
            v.word() == 0,
    ;
}

impl BitWidth for u8 {
    open spec fn wide() -> bool {
        false
    }

    open spec fn word(self) -> u16 {
        self as u16
    }

    fn get(reg: u16) -> (v: u8) {
        proof {
            assert((reg & 0x00ff) <= 0xff && (reg & 0x00ff) as u8 as u16 == reg & 0x00ff)
                by (bit_vector);
        }
        (reg & 0x00ff) as u8
    }

    fn set(reg: &mut u16, value: u8) {
        let updated = (*reg & 0xff00) | (value as u16);
        proof {
            assert(((*reg & 0xff00) | (value as u16)) == ((*reg & 0xff00) | ((value as u16)
                & 0x00ff))) by (bit_vector);
        }
        *reg = updated;
    }

    fn default() -> (v: u8) {
        0
    }
}

impl BitWidth for u16 {
    open spec fn wide() -> bool {
        true
    }

    open spec fn word(self) -> u16 {
        self
    }

    fn get(reg: u16) -> (v: u16) {
        reg
    }

    fn set(reg: &mut u16, value: u16) {
        *reg = value;
    }

    fn default() -> (v: u16) {
        0
    }
}

/// A value of the width selected by the mode-dispatch gate: the run-time
/// form of the two width instantiations.  An addressing resolver returns one
/// of these, and because a value is exactly one variant, exactly one
/// width-specific handler arm can consume it.
#[derive(Clone, Copy, Debug, PartialEq, Eq, Structural)]
pub enum SizedValue {
    Byte(u8),
    Word(u16),
}

impl SizedValue {
    /// Whether this is the 16-bit form.
    pub open spec fn wide(self) -> bool {
        self is Word
    }

    /// The carried value, widened to 16 bits.
    pub open spec fn word(self) -> u16 {
        match self {
            SizedValue::Byte(b) => b as u16,
            SizedValue::Word(w) => w,
        }
    }
}

/// A resolved address tagged with the width of the operation that will use
/// it: the offset itself is 16 bits either way, but a store through a `Word`
/// target touches two consecutive bytes where a `Byte` target touches one.
#[derive(Clone, Copy, Debug, PartialEq, Eq, Structural)]
pub enum SizedAddress {
    Byte(u16),
    Word(u16),
}

impl SizedAddress {
    /// Whether this addresses a 16-bit operation.
    pub open spec fn wide(self) -> bool {
        self is Word
    }

    /// The 16-bit offset within the data bank.
    pub open spec fn offset(self) -> u16 {
        match self {
            SizedAddress::Byte(a) => a,
            SizedAddress::Word(a) => a,
        }
    }
}

} // verus!
