use sm83::cpu::register_file::{Flags, Reg16, RegisterFile};
use sm83::cpu::{Cpu, Power, Step};
use sm83::hardware::ram::Ram;

const START: u16 = 0x0100;

fn machine(program: &[u8]) -> (Cpu, Ram) {
    let mut regs = RegisterFile::new();
    regs.pc = START;
    regs.sp = 0xFFFE;
    let mut ram = Ram::new();
    ram.load(START, program);
    (Cpu::new(regs, Power::Running, false), ram)
}

/// One step, which must signal nothing and take as many cycles as it made
/// accesses.
fn step(cpu: &mut Cpu, ram: &mut Ram) -> u8 {
    let before = ram.accesses;
    let Step { cycles, signal } = cpu.step(ram);
    assert_eq!(signal, None);
    assert_eq!(ram.accesses - before, u64::from(cycles));
    cycles
}

fn flags(z: bool, n: bool, h: bool, c: bool) -> Flags {
    Flags { z, n, h, c }
}

#[test]
fn add_immediate_wraps_and_carries() {
    let (mut cpu, mut ram) = machine(&[0xC6, 0x01]);
    cpu.regs.a = 0xFF;
    assert_eq!(step(&mut cpu, &mut ram), 2);
    assert_eq!(cpu.regs.a, 0x00);
    assert_eq!(cpu.regs.flags, flags(true, false, true, true));
    assert_eq!(cpu.regs.pc, START + 2);
}

#[test]
fn sub_immediate_wraps_and_borrows() {
    let (mut cpu, mut ram) = machine(&[0xD6, 0x01]);
    cpu.regs.a = 0x00;
    assert_eq!(step(&mut cpu, &mut ram), 2);
    assert_eq!(cpu.regs.a, 0xFF);
    assert_eq!(cpu.regs.flags, flags(false, true, true, true));
}

#[test]
fn inc_b_leaves_the_carry_flag() {
    let (mut cpu, mut ram) = machine(&[0x04]);
    cpu.regs.b = 0xFF;
    cpu.regs.flags = flags(false, true, false, true);
    assert_eq!(step(&mut cpu, &mut ram), 1);
    assert_eq!(cpu.regs.b, 0x00);
    assert_eq!(cpu.regs.flags, flags(true, false, true, true));

    let (mut cpu, mut ram) = machine(&[0x04]);
    cpu.regs.b = 0xFF;
    assert_eq!(step(&mut cpu, &mut ram), 1);
    assert_eq!(cpu.regs.flags, flags(true, false, true, false));
}

#[test]
fn daa_after_add_of_a_non_decimal_digit() {
    let (mut cpu, mut ram) = machine(&[0xC6, 0x0F, 0x27]);
    cpu.regs.a = 0x09;
    assert_eq!(step(&mut cpu, &mut ram), 2);
    assert_eq!(cpu.regs.a, 0x18);
    assert_eq!(cpu.regs.flags, flags(false, false, true, false));
    assert_eq!(step(&mut cpu, &mut ram), 1);
    assert_eq!(cpu.regs.a, 0x1E);
    assert_eq!(cpu.regs.flags, flags(false, false, false, false));
}

#[test]
fn daa_after_add_of_decimal_digits() {
    let (mut cpu, mut ram) = machine(&[0xC6, 0x27, 0x27]);
    cpu.regs.a = 0x15;
    step(&mut cpu, &mut ram);
    step(&mut cpu, &mut ram);
    assert_eq!(cpu.regs.a, 0x42);
    assert_eq!(cpu.regs.flags, flags(false, false, false, false));
}

#[test]
fn push_bc_then_pop_de() {
    let (mut cpu, mut ram) = machine(&[0xC5, 0xD1]);
    cpu.regs.write16(Reg16::BC, 0x1234);
    let sp = cpu.regs.sp;
    assert_eq!(step(&mut cpu, &mut ram), 4);
    assert_eq!(cpu.regs.sp, sp - 2);
    assert_eq!(ram.peek(sp - 2), 0x34);
    assert_eq!(ram.peek(sp - 1), 0x12);
    assert_eq!(step(&mut cpu, &mut ram), 3);
    assert_eq!(cpu.regs.read16(Reg16::DE), 0x1234);
    assert_eq!(cpu.regs.read16(Reg16::BC), 0x1234);
    assert_eq!(cpu.regs.sp, sp);
}

#[test]
fn pop_af_loses_the_low_nibble() {
    let (mut cpu, mut ram) = machine(&[0xF1, 0xF5]);
    cpu.regs.sp = 0xC000;
    ram.poke(0xC000, 0xFF);
    ram.poke(0xC001, 0x12);
    assert_eq!(step(&mut cpu, &mut ram), 3);
    assert_eq!(cpu.regs.a, 0x12);
    assert_eq!(cpu.regs.flags, flags(true, true, true, true));
    assert_eq!(cpu.regs.read16(Reg16::AF), 0x12F0);
    assert_eq!(step(&mut cpu, &mut ram), 4);
    assert_eq!(ram.peek(0xC000), 0xF0);
    assert_eq!(ram.peek(0xC001), 0x12);
}

#[test]
fn the_stack_wraps_around_the_address_space() {
    let (mut cpu, mut ram) = machine(&[0xC5, 0xD1]);
    cpu.regs.sp = 0x0001;
    cpu.regs.write16(Reg16::BC, 0xABCD);
    step(&mut cpu, &mut ram);
    assert_eq!(cpu.regs.sp, 0xFFFF);
    assert_eq!(ram.peek(0x0000), 0xAB);
    assert_eq!(ram.peek(0xFFFF), 0xCD);
    step(&mut cpu, &mut ram);
    assert_eq!(cpu.regs.read16(Reg16::DE), 0xABCD);
    assert_eq!(cpu.regs.sp, 0x0001);
}

#[test]
fn jr_cc_not_taken_takes_two_cycles() {
    for (op, set) in [(0x20u8, flags(true, false, false, false)), (0x28, flags(false, false, false, false)), (0x30, flags(false, false, false, true)), (0x38, flags(false, false, false, false))] {
        let (mut cpu, mut ram) = machine(&[op, 0x05]);
        cpu.regs.flags = set;
        assert_eq!(step(&mut cpu, &mut ram), 2);
        assert_eq!(cpu.regs.pc, START + 2);
        assert_eq!(cpu.regs.flags, set);
    }
}

#[test]
fn jr_cc_taken_takes_three_cycles() {
    for (op, set) in [(0x20u8, flags(false, false, false, false)), (0x28, flags(true, false, false, false)), (0x30, flags(false, false, false, false)), (0x38, flags(false, false, false, true))] {
        let (mut cpu, mut ram) = machine(&[op, 0x05]);
        cpu.regs.flags = set;
        assert_eq!(step(&mut cpu, &mut ram), 3);
        assert_eq!(cpu.regs.pc, START + 2 + 5);

        let (mut cpu, mut ram) = machine(&[op, 0xFE]);
        cpu.regs.flags = set;
        assert_eq!(step(&mut cpu, &mut ram), 3);
        assert_eq!(cpu.regs.pc, START);

        let (mut cpu, mut ram) = machine(&[op, 0x80]);
        cpu.regs.flags = set;
        assert_eq!(step(&mut cpu, &mut ram), 3);
        assert_eq!(cpu.regs.pc, START + 2 - 128);
    }
}

#[test]
fn jr_always_takes_three_cycles() {
    let (mut cpu, mut ram) = machine(&[0x18, 0x7F]);
    assert_eq!(step(&mut cpu, &mut ram), 3);
    assert_eq!(cpu.regs.pc, START + 2 + 127);
}

#[test]
fn ld_hl_sp_plus_e_takes_flags_from_the_low_byte() {
    let (mut cpu, mut ram) = machine(&[0xF8, 0xFF]);
    cpu.regs.sp = 0x0005;
    cpu.regs.flags = flags(true, true, false, false);
    assert_eq!(step(&mut cpu, &mut ram), 3);
    assert_eq!(cpu.regs.read16(Reg16::HL), 0x0004);
    assert_eq!(cpu.regs.sp, 0x0005);
    assert_eq!(cpu.regs.flags, flags(false, false, true, true));
}

#[test]
fn add_sp_e_moves_the_stack_pointer() {
    let (mut cpu, mut ram) = machine(&[0xE8, 0xFE]);
    cpu.regs.sp = 0xD000;
    assert_eq!(step(&mut cpu, &mut ram), 4);
    assert_eq!(cpu.regs.sp, 0xCFFE);
    assert_eq!(cpu.regs.flags, flags(false, false, false, false));

    let (mut cpu, mut ram) = machine(&[0xE8, 0x01]);
    cpu.regs.sp = 0x00FF;
    assert_eq!(step(&mut cpu, &mut ram), 4);
    assert_eq!(cpu.regs.sp, 0x0100);
    assert_eq!(cpu.regs.flags, flags(false, false, true, true));
}

#[test]
fn loads_between_registers_take_one_cycle() {
    let (mut cpu, mut ram) = machine(&[0x41, 0x78, 0x6F]);
    cpu.regs.c = 0x42;
    cpu.regs.flags = flags(true, false, true, false);
    assert_eq!(step(&mut cpu, &mut ram), 1);
    assert_eq!(cpu.regs.b, 0x42);
    assert_eq!(step(&mut cpu, &mut ram), 1);
    assert_eq!(cpu.regs.a, 0x42);
    assert_eq!(step(&mut cpu, &mut ram), 1);
    assert_eq!(cpu.regs.l, 0x42);
    assert_eq!(cpu.regs.flags, flags(true, false, true, false));
    assert_eq!(cpu.regs.pc, START + 3);
}

#[test]
fn loads_through_each_addressing_mode() {
    // LD B,n
    let (mut cpu, mut ram) = machine(&[0x06, 0x99]);
    assert_eq!(step(&mut cpu, &mut ram), 2);
    assert_eq!(cpu.regs.b, 0x99);

    // LD A,(BC) and LD (DE),A
    let (mut cpu, mut ram) = machine(&[0x0A, 0x12]);
    cpu.regs.write16(Reg16::BC, 0xC100);
    cpu.regs.write16(Reg16::DE, 0xC200);
    ram.poke(0xC100, 0x5A);
    assert_eq!(step(&mut cpu, &mut ram), 2);
    assert_eq!(cpu.regs.a, 0x5A);
    assert_eq!(step(&mut cpu, &mut ram), 2);
    assert_eq!(ram.peek(0xC200), 0x5A);

    // LD (HL),n
    let (mut cpu, mut ram) = machine(&[0x36, 0x77]);
    cpu.regs.write16(Reg16::HL, 0xC000);
    assert_eq!(step(&mut cpu, &mut ram), 3);
    assert_eq!(ram.peek(0xC000), 0x77);
    assert_eq!(cpu.regs.pc, START + 2);

    // LD (HL+),A then LD A,(HL-)
    let (mut cpu, mut ram) = machine(&[0x22, 0x3A]);
    cpu.regs.write16(Reg16::HL, 0xC0FF);
    cpu.regs.a = 0x11;
    ram.poke(0xC100, 0x22);
    assert_eq!(step(&mut cpu, &mut ram), 2);
    assert_eq!(ram.peek(0xC0FF), 0x11);
    assert_eq!(cpu.regs.read16(Reg16::HL), 0xC100);
    assert_eq!(step(&mut cpu, &mut ram), 2);
    assert_eq!(cpu.regs.a, 0x22);
    assert_eq!(cpu.regs.read16(Reg16::HL), 0xC0FF);

    // LD (nn),A then LD A,(nn)
    let (mut cpu, mut ram) = machine(&[0xEA, 0x34, 0xC2, 0xFA, 0x35, 0xC2]);
    cpu.regs.a = 0xA5;
    ram.poke(0xC235, 0x5A);
    assert_eq!(step(&mut cpu, &mut ram), 4);
    assert_eq!(ram.peek(0xC234), 0xA5);
    assert_eq!(step(&mut cpu, &mut ram), 4);
    assert_eq!(cpu.regs.a, 0x5A);
    assert_eq!(cpu.regs.pc, START + 6);

    // LDH (n),A then LDH A,(n)
    let (mut cpu, mut ram) = machine(&[0xE0, 0x80, 0xF0, 0x81]);
    cpu.regs.a = 0x33;
    ram.poke(0xFF81, 0x44);
    assert_eq!(step(&mut cpu, &mut ram), 3);
    assert_eq!(ram.peek(0xFF80), 0x33);
    assert_eq!(step(&mut cpu, &mut ram), 3);
    assert_eq!(cpu.regs.a, 0x44);

    // LD (C),A then LD A,(C)
    let (mut cpu, mut ram) = machine(&[0xE2, 0xF2]);
    cpu.regs.a = 0x66;
    cpu.regs.c = 0x90;
    assert_eq!(step(&mut cpu, &mut ram), 2);
    assert_eq!(ram.peek(0xFF90), 0x66);
    ram.poke(0xFF90, 0x67);
    assert_eq!(step(&mut cpu, &mut ram), 2);
    assert_eq!(cpu.regs.a, 0x67);
}

#[test]
fn arithmetic_on_memory_takes_a_cycle_more() {
    let (mut cpu, mut ram) = machine(&[0x86, 0x96, 0xBE]);
    cpu.regs.write16(Reg16::HL, 0xC000);
    cpu.regs.a = 0x10;
    ram.poke(0xC000, 0x0F);
    assert_eq!(step(&mut cpu, &mut ram), 2);
    assert_eq!(cpu.regs.a, 0x1F);
    assert_eq!(step(&mut cpu, &mut ram), 2);
    assert_eq!(cpu.regs.a, 0x10);
    assert_eq!(cpu.regs.flags, flags(false, true, false, false));
    assert_eq!(step(&mut cpu, &mut ram), 2);
    assert_eq!(cpu.regs.a, 0x10);
    assert_eq!(cpu.regs.flags, flags(false, true, true, false));
}

#[test]
fn inc_and_dec_in_memory_take_three_cycles() {
    let (mut cpu, mut ram) = machine(&[0x34, 0x35, 0x35]);
    cpu.regs.write16(Reg16::HL, 0xC000);
    cpu.regs.flags = flags(false, false, false, true);
    ram.poke(0xC000, 0xFF);
    assert_eq!(step(&mut cpu, &mut ram), 3);
    assert_eq!(ram.peek(0xC000), 0x00);
    assert_eq!(cpu.regs.flags, flags(true, false, true, true));
    assert_eq!(step(&mut cpu, &mut ram), 3);
    assert_eq!(ram.peek(0xC000), 0xFF);
    assert_eq!(cpu.regs.flags, flags(false, true, true, true));
    assert_eq!(step(&mut cpu, &mut ram), 3);
    assert_eq!(ram.peek(0xC000), 0xFE);
    assert_eq!(cpu.regs.flags, flags(false, true, false, true));
}

#[test]
fn sixteen_bit_loads() {
    let (mut cpu, mut ram) = machine(&[0x01, 0x34, 0x12, 0x31, 0x00, 0xD0, 0x21, 0xCD, 0xAB, 0xF9, 0x08, 0x00, 0xC0]);
    assert_eq!(step(&mut cpu, &mut ram), 3);
    assert_eq!(cpu.regs.read16(Reg16::BC), 0x1234);
    assert_eq!(step(&mut cpu, &mut ram), 3);
    assert_eq!(cpu.regs.sp, 0xD000);
    assert_eq!(step(&mut cpu, &mut ram), 3);
    assert_eq!(cpu.regs.read16(Reg16::HL), 0xABCD);
    assert_eq!(step(&mut cpu, &mut ram), 2);
    assert_eq!(cpu.regs.sp, 0xABCD);
    assert_eq!(step(&mut cpu, &mut ram), 5);
    assert_eq!(ram.peek(0xC000), 0xCD);
    assert_eq!(ram.peek(0xC001), 0xAB);
    assert_eq!(cpu.regs.flags, Flags::empty());
}

#[test]
fn sixteen_bit_arithmetic() {
    let (mut cpu, mut ram) = machine(&[0x09, 0x29, 0x03, 0x0B, 0x33, 0x3B]);
    cpu.regs.write16(Reg16::HL, 0x0FFF);
    cpu.regs.write16(Reg16::BC, 0x0001);
    cpu.regs.flags = flags(true, true, false, false);
    assert_eq!(step(&mut cpu, &mut ram), 2);
    assert_eq!(cpu.regs.read16(Reg16::HL), 0x1000);
    assert_eq!(cpu.regs.flags, flags(true, false, true, false));
    cpu.regs.write16(Reg16::HL, 0x8000);
    assert_eq!(step(&mut cpu, &mut ram), 2);
    assert_eq!(cpu.regs.read16(Reg16::HL), 0x0000);
    assert_eq!(cpu.regs.flags, flags(true, false, false, true));
    cpu.regs.write16(Reg16::BC, 0xFFFF);
    assert_eq!(step(&mut cpu, &mut ram), 2);
    assert_eq!(cpu.regs.read16(Reg16::BC), 0x0000);
    assert_eq!(step(&mut cpu, &mut ram), 2);
    assert_eq!(cpu.regs.read16(Reg16::BC), 0xFFFF);
    cpu.regs.sp = 0xFFFF;
    assert_eq!(step(&mut cpu, &mut ram), 2);
    assert_eq!(cpu.regs.sp, 0x0000);
    assert_eq!(step(&mut cpu, &mut ram), 2);
    assert_eq!(cpu.regs.sp, 0xFFFF);
    assert_eq!(cpu.regs.flags, flags(true, false, false, true));
}

#[test]
fn accumulator_rotates_take_one_cycle_and_clear_zero() {
    let (mut cpu, mut ram) = machine(&[0x07, 0x17, 0x0F, 0x1F]);
    cpu.regs.a = 0x80;
    cpu.regs.flags = flags(true, true, true, false);
    assert_eq!(step(&mut cpu, &mut ram), 1);
    assert_eq!((cpu.regs.a, cpu.regs.flags), (0x01, flags(false, false, false, true)));
    assert_eq!(step(&mut cpu, &mut ram), 1);
    assert_eq!((cpu.regs.a, cpu.regs.flags), (0x03, flags(false, false, false, false)));
    assert_eq!(step(&mut cpu, &mut ram), 1);
    assert_eq!((cpu.regs.a, cpu.regs.flags), (0x81, flags(false, false, false, true)));
    assert_eq!(step(&mut cpu, &mut ram), 1);
    assert_eq!((cpu.regs.a, cpu.regs.flags), (0xC0, flags(false, false, false, true)));
}

#[test]
fn jumps_calls_and_returns() {
    // JP nn
    let (mut cpu, mut ram) = machine(&[0xC3, 0x00, 0x80]);
    assert_eq!(step(&mut cpu, &mut ram), 4);
    assert_eq!(cpu.regs.pc, 0x8000);

    // JP HL
    let (mut cpu, mut ram) = machine(&[0xE9]);
    cpu.regs.write16(Reg16::HL, 0x4321);
    assert_eq!(step(&mut cpu, &mut ram), 1);
    assert_eq!(cpu.regs.pc, 0x4321);

    // CALL nn pushes the address after the call; RET comes back to it
    let (mut cpu, mut ram) = machine(&[0xCD, 0x00, 0x80]);
    ram.poke(0x8000, 0xC9);
    assert_eq!(step(&mut cpu, &mut ram), 6);
    assert_eq!(cpu.regs.pc, 0x8000);
    assert_eq!(cpu.regs.sp, 0xFFFC);
    assert_eq!(ram.peek(0xFFFC), 0x03);
    assert_eq!(ram.peek(0xFFFD), 0x01);
    assert_eq!(step(&mut cpu, &mut ram), 4);
    assert_eq!(cpu.regs.pc, START + 3);
    assert_eq!(cpu.regs.sp, 0xFFFE);

    // RST 28h
    let (mut cpu, mut ram) = machine(&[0xEF]);
    assert_eq!(step(&mut cpu, &mut ram), 4);
    assert_eq!(cpu.regs.pc, 0x0028);
    assert_eq!(ram.peek(0xFFFC), 0x01);
    assert_eq!(ram.peek(0xFFFD), 0x01);
}

#[test]
fn conditional_jumps_calls_and_returns_cost_less_when_not_taken() {
    let carry = flags(false, false, false, true);
    let none = Flags::empty();

    let (mut cpu, mut ram) = machine(&[0xDA, 0x00, 0x80]);
    cpu.regs.flags = none;
    assert_eq!(step(&mut cpu, &mut ram), 3);
    assert_eq!(cpu.regs.pc, START + 3);
    let (mut cpu, mut ram) = machine(&[0xDA, 0x00, 0x80]);
    cpu.regs.flags = carry;
    assert_eq!(step(&mut cpu, &mut ram), 4);
    assert_eq!(cpu.regs.pc, 0x8000);

    let (mut cpu, mut ram) = machine(&[0xD4, 0x00, 0x80]);
    cpu.regs.flags = carry;
    assert_eq!(step(&mut cpu, &mut ram), 3);
    assert_eq!(cpu.regs.pc, START + 3);
    assert_eq!(cpu.regs.sp, 0xFFFE);
    let (mut cpu, mut ram) = machine(&[0xD4, 0x00, 0x80]);
    cpu.regs.flags = none;
    assert_eq!(step(&mut cpu, &mut ram), 6);
    assert_eq!(cpu.regs.pc, 0x8000);
    assert_eq!(cpu.regs.sp, 0xFFFC);

    let (mut cpu, mut ram) = machine(&[0xC8]);
    cpu.regs.sp = 0xC000;
    ram.poke(0xC000, 0x78);
    ram.poke(0xC001, 0x56);
    cpu.regs.flags = none;
    assert_eq!(step(&mut cpu, &mut ram), 2);
    assert_eq!(cpu.regs.pc, START + 1);
    assert_eq!(cpu.regs.sp, 0xC000);
    let (mut cpu, mut ram) = machine(&[0xC8]);
    cpu.regs.sp = 0xC000;
    ram.poke(0xC000, 0x78);
    ram.poke(0xC001, 0x56);
    cpu.regs.flags = flags(true, false, false, false);
    assert_eq!(step(&mut cpu, &mut ram), 5);
    assert_eq!(cpu.regs.pc, 0x5678);
    assert_eq!(cpu.regs.sp, 0xC002);
}

#[test]
fn extended_instructions_through_the_prefix() {
    // RLC B
    let (mut cpu, mut ram) = machine(&[0xCB, 0x00]);
    cpu.regs.b = 0x85;
    assert_eq!(step(&mut cpu, &mut ram), 2);
    assert_eq!(cpu.regs.b, 0x0B);
    assert_eq!(cpu.regs.flags, flags(false, false, false, true));
    assert_eq!(cpu.regs.pc, START + 2);

    // SWAP (HL)
    let (mut cpu, mut ram) = machine(&[0xCB, 0x36]);
    cpu.regs.write16(Reg16::HL, 0xC000);
    ram.poke(0xC000, 0xF1);
    assert_eq!(step(&mut cpu, &mut ram), 4);
    assert_eq!(ram.peek(0xC000), 0x1F);
    assert_eq!(cpu.regs.flags, Flags::empty());

    // BIT 7,(HL) reads and does not write
    let (mut cpu, mut ram) = machine(&[0xCB, 0x7E]);
    cpu.regs.write16(Reg16::HL, 0xC000);
    cpu.regs.flags = flags(false, true, false, true);
    ram.poke(0xC000, 0x7F);
    assert_eq!(step(&mut cpu, &mut ram), 3);
    assert_eq!(ram.peek(0xC000), 0x7F);
    assert_eq!(cpu.regs.flags, flags(true, false, true, true));

    // SET 0,(HL) and RES 7,A have no flag effect
    let (mut cpu, mut ram) = machine(&[0xCB, 0xC6, 0xCB, 0xBF]);
    cpu.regs.write16(Reg16::HL, 0xC000);
    cpu.regs.a = 0xFF;
    cpu.regs.flags = flags(true, true, true, true);
    assert_eq!(step(&mut cpu, &mut ram), 4);
    assert_eq!(ram.peek(0xC000), 0x01);
    assert_eq!(step(&mut cpu, &mut ram), 2);
    assert_eq!(cpu.regs.a, 0x7F);
    assert_eq!(cpu.regs.flags, flags(true, true, true, true));
}

#[test]
fn flag_only_instructions() {
    let (mut cpu, mut ram) = machine(&[0x37, 0x3F, 0x3F, 0x2F]);
    cpu.regs.a = 0x0F;
    cpu.regs.flags = flags(true, true, true, false);
    assert_eq!(step(&mut cpu, &mut ram), 1);
    assert_eq!(cpu.regs.flags, flags(true, false, false, true));
    assert_eq!(step(&mut cpu, &mut ram), 1);
    assert_eq!(cpu.regs.flags, flags(true, false, false, false));
    assert_eq!(step(&mut cpu, &mut ram), 1);
    assert_eq!(cpu.regs.flags, flags(true, false, false, true));
    assert_eq!(step(&mut cpu, &mut ram), 1);
    assert_eq!(cpu.regs.a, 0xF0);
    assert_eq!(cpu.regs.flags, flags(true, true, true, true));
}

#[test]
fn the_program_counter_wraps_around_the_address_space() {
    let mut regs = RegisterFile::new();
    regs.pc = 0xFFFF;
    let mut ram = Ram::new();
    ram.poke(0xFFFF, 0x3E);
    ram.poke(0x0000, 0x42);
    let mut cpu = Cpu::new(regs, Power::Running, false);
    assert_eq!(step(&mut cpu, &mut ram), 2);
    assert_eq!(cpu.regs.a, 0x42);
    assert_eq!(cpu.regs.pc, 0x0001);
}
