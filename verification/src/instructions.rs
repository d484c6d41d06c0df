//! Addressing-mode resolvers, the mode-dispatch gate, representative
//! instruction handlers and the opcode dispatcher.
//!
//! Many addressing modes behave differently in 16-bit mode.  To avoid
//! writing every mode and every instruction twice, the width-select flag is
//! read once per instruction by the mode-dispatch gate, each resolver takes
//! that choice as an explicit parameter and yields a value or address tagged
//! with the matching width, and each handler consumes the tag — a tagged
//! value is exactly one variant, so exactly one width-specific path runs.

use crate::machine::{width16, wrap_inc, Cpu, FLAG_A16, FLAG_NO_IRQ};
use crate::memory::Mapper;
use crate::width::{hi_byte, lo_byte, write_at_width, word_le, BitWidth, SizedAddress, SizedValue};
use vstd::prelude::*;

verus! {

/// Load-accumulator with an immediate operand.
pub const OP_LDA_IMMEDIATE: u8 = 0xa9;

/// Load-accumulator from an absolute address in the data bank.
pub const OP_LDA_ABSOLUTE: u8 = 0xad;

/// Set the interrupt-disable flag; no operand, no addressing mode.
pub const OP_SEI: u8 = 0x78;

/// Store the width-appropriate zero to an absolute address in the data bank.
pub const OP_STZ_ABSOLUTE: u8 = 0x9c;

/// Whether an opcode byte has a bound handler.
pub open spec fn decoded(op: u8) -> bool {
    op == OP_LDA_IMMEDIATE || op == OP_LDA_ABSOLUTE || op == OP_SEI || op == OP_STZ_ABSOLUTE
}

/// Decoding cannot continue: fatal to the current execution step, surfaced
/// to the driving loop rather than silently advancing past an opcode the
/// core cannot interpret.
#[derive(Clone, Copy, Debug, PartialEq, Eq, Structural)]
pub enum DecodeError {
    /// The fetched opcode byte has no bound handler.
    UnboundOpcode(u8),
}

/// The mode-dispatch gate: reads the width-select flag exactly once per
/// instruction and hands the choice on to the chosen resolver, so that
/// neither the resolvers nor the instruction handlers ever re-inspect the
/// flag.  This is the single runtime branch point between the 8-bit and the
/// 16-bit form of an instruction.
pub fn a16<M: Mapper>(cpu: &Cpu<M>) -> (sixteen_bits: bool)
    ensures
        sixteen_bits == width16(cpu.registers.flags),
{
    cpu.registers.flags & FLAG_A16 != 0
}

/// Mode dispatch selects exactly one continuation: the tag a resolver hands
/// to the handlers equals the width flag that `a16` read, and a tagged value
/// is exactly one of its two variants — so for every flag state exactly one
/// width-specific handler arm can fire, never zero and never both.
pub proof fn lemma_single_dispatch(flags: u8, v: SizedValue)
    requires
        v.wide() == width16(flags),
    ensures
        width16(flags) ==> v is Word && !(v is Byte),
        !width16(flags) ==> v is Byte && !(v is Word),
{
}

/// Immediate addressing: the operand is the next byte of the instruction
/// stream in 8-bit mode, or the next two bytes combined little-endian in
/// 16-bit mode.  No memory access beyond the instruction stream.
pub fn immediate<M: Mapper>(cpu: &mut Cpu<M>, sixteen_bits: bool) -> (v: SizedValue)
    ensures
        v.wide() == sixteen_bits,
        !sixteen_bits ==> v == SizedValue::Byte(old(cpu).code_byte(old(cpu).registers.pc))
            && final(cpu).registers.pc == wrap_inc(old(cpu).registers.pc),
        sixteen_bits ==> v == SizedValue::Word(
            word_le(
                old(cpu).code_byte(old(cpu).registers.pc),
                old(cpu).code_byte(wrap_inc(old(cpu).registers.pc)),
            ),
        ) && final(cpu).registers.pc == wrap_inc(wrap_inc(old(cpu).registers.pc)),
        final(cpu).registers.pb == old(cpu).registers.pb,
        final(cpu).registers.db == old(cpu).registers.db,
        final(cpu).registers.a == old(cpu).registers.a,
        final(cpu).registers.flags == old(cpu).registers.flags,
        final(cpu).mapper == old(cpu).mapper,
{
    let lo = cpu.fetch();
    if sixteen_bits {
        let hi = cpu.fetch();
        SizedValue::Word((lo as u16) | ((hi as u16) << 8))
    } else {
        SizedValue::Byte(lo)
    }
}

/// Absolute addressing, yielding the effective address itself: two fetched
/// bytes form a 16-bit offset little-endian, combined with the data bank by
/// whoever uses the address.  Store-class instructions use this directly;
/// the width tag records which width the consuming operation runs at.
pub fn absolute_address<M: Mapper>(cpu: &mut Cpu<M>, sixteen_bits: bool) -> (target: SizedAddress)
    ensures
        target.wide() == sixteen_bits,
        target.offset() == word_le(
            old(cpu).code_byte(old(cpu).registers.pc),
            old(cpu).code_byte(wrap_inc(old(cpu).registers.pc)),
        ),
        final(cpu).registers.pc == wrap_inc(wrap_inc(old(cpu).registers.pc)),
        final(cpu).registers.pb == old(cpu).registers.pb,
        final(cpu).registers.db == old(cpu).registers.db,
        final(cpu).registers.a == old(cpu).registers.a,
        final(cpu).registers.flags == old(cpu).registers.flags,
        final(cpu).mapper == old(cpu).mapper,
{
    let lo = cpu.fetch();
    let hi = cpu.fetch();
    let address = (lo as u16) | ((hi as u16) << 8);
    if sixteen_bits {
        SizedAddress::Word(address)
    } else {
        SizedAddress::Byte(address)
    }
}

/// Absolute addressing, yielding the value at the effective address: the
/// fetched offset is dereferenced in the data bank, with one byte read in
/// 8-bit mode and two sequential little-endian byte reads in 16-bit mode
/// (the second offset wrapping within the bank).
pub fn absolute<M: Mapper>(cpu: &mut Cpu<M>, sixteen_bits: bool) -> (v: SizedValue)
    ensures
        v.wide() == sixteen_bits,
        ({
            let addr = word_le(
                old(cpu).code_byte(old(cpu).registers.pc),
                old(cpu).code_byte(wrap_inc(old(cpu).registers.pc)),
            );
            if sixteen_bits {
                v == SizedValue::Word(
                    word_le(old(cpu).data_byte(addr), old(cpu).data_byte(wrap_inc(addr))),
                )
            } else {
                v == SizedValue::Byte(old(cpu).data_byte(addr))
            }
        }),
        final(cpu).registers.pc == wrap_inc(wrap_inc(old(cpu).registers.pc)),
        final(cpu).registers.pb == old(cpu).registers.pb,
        final(cpu).registers.db == old(cpu).registers.db,
        final(cpu).registers.a == old(cpu).registers.a,
        final(cpu).registers.flags == old(cpu).registers.flags,
        final(cpu).mapper == old(cpu).mapper,
{
    let target = absolute_address(cpu, sixteen_bits);
    match target {
        SizedAddress::Byte(addr) => {
            let b = cpu.read8(cpu.registers.db, addr);
            SizedValue::Byte(b)
        },
        SizedAddress::Word(addr) => {
            let w = cpu.read16(cpu.registers.db, addr);
            SizedValue::Word(w)
        },
    }
}

/// Load-accumulator: writes the resolved value into the accumulator at the
/// value's width.  An 8-bit load preserves the accumulator's high byte; no
/// other register and no memory is touched.
pub fn lda<M: Mapper>(cpu: &mut Cpu<M>, value: SizedValue)
    ensures
        final(cpu).registers.a == write_at_width(
            value.wide(),
            old(cpu).registers.a,
            value.word(),
        ),
        final(cpu).registers.pb == old(cpu).registers.pb,
        final(cpu).registers.pc == old(cpu).registers.pc,
        final(cpu).registers.db == old(cpu).registers.db,
        final(cpu).registers.flags == old(cpu).registers.flags,
        final(cpu).mapper == old(cpu).mapper,
{
    match value {
        SizedValue::Byte(b) => <u8 as BitWidth>::set(&mut cpu.registers.a, b),
        SizedValue::Word(w) => <u16 as BitWidth>::set(&mut cpu.registers.a, w),
    }
}

/// Store-zero: writes the width-appropriate zero value to the resolved
/// offset in the data bank — one byte for a `Byte` target, two consecutive
/// bytes for a `Word` target — with no accumulator interaction and no other
/// memory cell changed.
pub fn stz<M: Mapper>(cpu: &mut Cpu<M>, target: SizedAddress)
    ensures
        final(cpu).registers == old(cpu).registers,
        forall|bk: u8, of: u16|
            #[trigger] final(cpu).mapper.byte_at(bk, of) == if bk == old(cpu).registers.db && (of
                == target.offset() || (target.wide() && of == wrap_inc(target.offset()))) {
                0
            } else {
                old(cpu).mapper.byte_at(bk, of)
            },
{
    let db = cpu.registers.db;
    match target {
        SizedAddress::Byte(addr) => {
            let zero = <u8 as BitWidth>::default();
            cpu.write8(db, addr, zero);
        },
        SizedAddress::Word(addr) => {
            let zero = <u16 as BitWidth>::default();
            proof {
                assert(lo_byte(0) == 0 && hi_byte(0) == 0) by (bit_vector);
            }
            cpu.write16(db, addr, zero);
        },
    }
}

/// What one decode-execute step does to the machine, as a relation between
/// the state before, the state after and the step's outcome.  The opcode is
/// the byte the program counter points at; every register, every memory
/// cell and the outcome are pinned for every case, including the decode
/// failure, which leaves the machine exactly as it was.
pub open spec fn instruction_effect<M: Mapper>(
    pre: Cpu<M>,
    post: Cpu<M>,
    r: Result<(), DecodeError>,
) -> bool {
    let op = pre.code_byte(pre.registers.pc);
    let wide = width16(pre.registers.flags);
    let pc1 = wrap_inc(pre.registers.pc);
    let pc2 = wrap_inc(pc1);
    let pc3 = wrap_inc(pc2);
    let operand = word_le(pre.code_byte(pc1), pre.code_byte(pc2));
    if op == OP_LDA_IMMEDIATE {
        let v = if wide {
            operand
        } else {
            pre.code_byte(pc1) as u16
        };
        &&& r is Ok
        &&& post.mapper == pre.mapper
        &&& post.registers.a == write_at_width(wide, pre.registers.a, v)
        &&& post.registers.pc == (if wide {
            pc3
        } else {
            pc2
        })
        &&& post.registers.pb == pre.registers.pb
        &&& post.registers.db == pre.registers.db
        &&& post.registers.flags == pre.registers.flags
    } else if op == OP_LDA_ABSOLUTE {
        let v = if wide {
            word_le(pre.data_byte(operand), pre.data_byte(wrap_inc(operand)))
        } else {
            pre.data_byte(operand) as u16
        };
        &&& r is Ok
        &&& post.mapper == pre.mapper
        &&& post.registers.a == write_at_width(wide, pre.registers.a, v)
        &&& post.registers.pc == pc3
        &&& post.registers.pb == pre.registers.pb
        &&& post.registers.db == pre.registers.db
        &&& post.registers.flags == pre.registers.flags
    } else if op == OP_SEI {
        &&& r is Ok
        &&& post.mapper == pre.mapper
        &&& post.registers.flags == (pre.registers.flags | FLAG_NO_IRQ)
        &&& post.registers.pc == pc1
        &&& post.registers.pb == pre.registers.pb
        &&& post.registers.db == pre.registers.db
        &&& post.registers.a == pre.registers.a
    } else if op == OP_STZ_ABSOLUTE {
        &&& r is Ok
        &&& post.registers.pc == pc3
        &&& post.registers.pb == pre.registers.pb
        &&& post.registers.db == pre.registers.db
        &&& post.registers.a == pre.registers.a
        &&& post.registers.flags == pre.registers.flags
        &&& forall|bk: u8, of: u16|
            #[trigger] post.mapper.byte_at(bk, of) == if bk == pre.registers.db && (of == operand
                || (wide && of == wrap_inc(operand))) {
                0
            } else {
                pre.mapper.byte_at(bk, of)
            }
    } else {
        &&& r == Result::<(), DecodeError>::Err(DecodeError::UnboundOpcode(op))
        &&& post.registers == pre.registers
        &&& post.mapper == pre.mapper
    }
}

/// One step of the opcode dispatcher: fetch one opcode byte, route to the
/// bound (addressing-resolver, instruction-handler) pairing through the
/// mode-dispatch gate, and return to the ready state.  An unbound opcode is
/// a fatal decode failure: the step reports it and leaves every register
/// and every memory cell unchanged, so the driving loop decides whether to
/// halt or substitute a trap.
pub fn run_instruction<M: Mapper>(cpu: &mut Cpu<M>) -> (r: Result<(), DecodeError>)
    ensures
        instruction_effect(*old(cpu), *final(cpu), r),
        r is Ok <==> decoded(old(cpu).code_byte(old(cpu).registers.pc)),
{
    let code = cpu.fetch();
    match code {
        OP_LDA_IMMEDIATE => {
            let sixteen_bits = a16(cpu);
            let value = immediate(cpu, sixteen_bits);
            lda(cpu, value);
            Ok(())
        },
        OP_LDA_ABSOLUTE => {
            let sixteen_bits = a16(cpu);
            let value = absolute(cpu, sixteen_bits);
            lda(cpu, value);
            Ok(())
        },
        OP_SEI => {
            cpu.set_flag(FLAG_NO_IRQ);
            Ok(())
        },
        OP_STZ_ABSOLUTE => {
            let sixteen_bits = a16(cpu);
            let target = absolute_address(cpu, sixteen_bits);
            stz(cpu, target);
            Ok(())
        },
        _ => {
            // A decode failure must not advance past the opcode it cannot
            // interpret: undo the fetch so the machine is left untouched.
            let pc = cpu.registers.pc;
            cpu.registers.pc = if pc == 0 {
                0xffff
            } else {
                pc - 1
            };
            Err(DecodeError::UnboundOpcode(code))
        },
    }
}

} // verus!
