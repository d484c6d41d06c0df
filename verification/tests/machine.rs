use cpu::machine::{Cpu, Registers, FLAG_NO_IRQ};
use cpu::memory::{Mapper, Memory};

fn machine_with(regs: Registers) -> Cpu<Memory> {
    Cpu { mapper: Memory::new(), registers: regs }
}

fn plain_registers() -> Registers {
    Registers { pb: 0x00, pc: 0x8000, db: 0x7e, a: 0x0000, flags: 0x00 }
}

#[test]
fn fresh_memory_is_zero() {
    let mem = Memory::new();
    assert_eq!(mem.read(0x00, 0x0000), 0x00);
    assert_eq!(mem.read(0x7e, 0xffff), 0x00);
}

#[test]
fn memory_returns_last_write() {
    let mut mem = Memory::new();
    mem.write(0x7e, 0x2000, 0x11);
    mem.write(0x7e, 0x2000, 0x22);
    mem.write(0x7f, 0x2000, 0x33);
    assert_eq!(mem.read(0x7e, 0x2000), 0x22);
    assert_eq!(mem.read(0x7f, 0x2000), 0x33);
    assert_eq!(mem.read(0x7e, 0x2001), 0x00);
}

#[test]
fn fetch_reads_program_bank_and_advances() {
    let mut cpu = machine_with(plain_registers());
    cpu.registers.pb = 0x12;
    cpu.mapper.write(0x12, 0x8000, 0x5a);
    let byte = cpu.fetch();
    assert_eq!(byte, 0x5a);
    assert_eq!(cpu.registers.pc, 0x8001);
    assert_eq!(cpu.registers.pb, 0x12);
}

#[test]
fn fetch_wraps_program_counter_within_bank() {
    let mut cpu = machine_with(plain_registers());
    cpu.registers.pb = 0x12;
    cpu.registers.pc = 0xffff;
    cpu.mapper.write(0x12, 0xffff, 0x77);
    let byte = cpu.fetch();
    assert_eq!(byte, 0x77);
    assert_eq!(cpu.registers.pc, 0x0000);
    assert_eq!(cpu.registers.pb, 0x12);
}

#[test]
fn read16_combines_little_endian() {
    let mut cpu = machine_with(plain_registers());
    cpu.mapper.write(0x7e, 0x2000, 0x34);
    cpu.mapper.write(0x7e, 0x2001, 0x12);
    assert_eq!(cpu.read16(0x7e, 0x2000), 0x1234);
}

#[test]
fn read16_wraps_offset_within_bank() {
    let mut cpu = machine_with(plain_registers());
    cpu.mapper.write(0x7e, 0xffff, 0xcd);
    cpu.mapper.write(0x7e, 0x0000, 0xab);
    assert_eq!(cpu.read16(0x7e, 0xffff), 0xabcd);
}

#[test]
fn write16_round_trips_through_bytes() {
    let mut cpu = machine_with(plain_registers());
    cpu.write16(0x7e, 0x2000, 0x1234);
    assert_eq!(cpu.read8(0x7e, 0x2000), 0x34);
    assert_eq!(cpu.read8(0x7e, 0x2001), 0x12);
    assert_eq!(cpu.read16(0x7e, 0x2000), 0x1234);
}

#[test]
fn set_flag_only_sets_requested_bits() {
    let mut cpu = machine_with(plain_registers());
    cpu.registers.flags = 0x81;
    cpu.set_flag(FLAG_NO_IRQ);
    assert_eq!(cpu.registers.flags, 0x81 | FLAG_NO_IRQ);
    assert_eq!(cpu.registers.pc, 0x8000);
}

#[test]
fn reset_loads_vector_and_initial_state() {
    let mut cpu = machine_with(Registers { pb: 0x12, pc: 0x4444, db: 0x7e, a: 0x9999, flags: 0xff });
    cpu.mapper.write(0x00, 0xfffc, 0x00);
    cpu.mapper.write(0x00, 0xfffd, 0x80);
    cpu.reset();
    assert_eq!(cpu.registers.pc, 0x8000);
    assert_eq!(cpu.registers.pb, 0x00);
    assert_eq!(cpu.registers.db, 0x00);
    assert_eq!(cpu.registers.a, 0x0000);
    assert_eq!(cpu.registers.flags, FLAG_NO_IRQ);
}
