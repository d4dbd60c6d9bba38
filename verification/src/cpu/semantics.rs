//! What every instruction does, as functions from the state of the machine
//! before it to the state after it.
//!
//! The state of the machine is the processor and the model of whatever is
//! behind the bus. Bus accesses are applied to the model one after the other,
//! so the functions fix their order and their number as well as their effect.
//!
//! An instruction has two effects that do not meet. What it computes, it
//! computes on the registers and the bus alone: that is written over
//! [`Data`], which holds nothing else. What it does to the execution state
//! and to the interrupt enable is [`control`], which looks at no register.

use vstd::prelude::*;
use crate::cpu::alu::{
    add16_spec, add_sp_spec, alu_spec, bit_reset_spec, bit_set_spec, bit_test_spec, ccf_spec,
    cpl_spec, daa_spec, dec8_spec, inc8_spec, offset_spec, rotate_a_spec, rotate_spec, scf_spec,
    AluOp, RotOp,
};
use crate::cpu::decode::{extended_of, instr_of, Extended, Instr};
use crate::cpu::register_file::{high, low, pair, Flags, Reg16, RegisterFile};
use crate::cpu::{Addr, Cond, Cpu, Operand, Power, Signal, Step};
use crate::hardware::{Bus, Interrupt};

verus! {

/// What an instruction computes on: the registers and the model of the bus.
/// The rest of the processor's state is out of its reach.
pub struct Data<M> {
    pub regs: RegisterFile,
    pub bus: M,
}

/// The processor together with the model of the bus.
pub struct Machine<M> {
    pub cpu: Cpu,
    pub bus: M,
}

/// The machine after a dispatch, and what the dispatch returns.
pub struct Outcome<M> {
    pub cpu: Cpu,
    pub bus: M,
    pub step: Step,
}

/// The registers and a bus, taken together.
pub open spec fn data<B: Bus>(regs: RegisterFile, bus: B) -> Data<B::Model> {
    Data { regs, bus: bus.model() }
}

/// The machine made of a processor and a bus.
pub open spec fn machine<B: Bus>(cpu: Cpu, bus: B) -> Machine<B::Model> {
    Machine { cpu, bus: bus.model() }
}

/// The outcome made of a processor, a bus and a returned step.
pub open spec fn outcome<B: Bus>(cpu: Cpu, bus: B, step: Step) -> Outcome<B::Model> {
    Outcome { cpu, bus: bus.model(), step }
}

/// An integer cut to 16 bits.
pub open spec fn wrap16(value: int) -> u16 {
    (value % 0x1_0000) as u16
}

impl<M> Data<M> {
    /// The same bus with other registers.
    pub open spec fn with_regs(self, regs: RegisterFile) -> Self {
        Data { regs, ..self }
    }

    /// The same with another program counter.
    pub open spec fn with_pc(self, pc: u16) -> Self {
        Data { regs: RegisterFile { pc, ..self.regs }, ..self }
    }

    /// The same with another stack pointer.
    pub open spec fn with_sp(self, sp: u16) -> Self {
        Data { regs: RegisterFile { sp, ..self.regs }, ..self }
    }

    /// The same with other flags.
    pub open spec fn with_flags(self, flags: Flags) -> Self {
        Data { regs: RegisterFile { flags, ..self.regs }, ..self }
    }
}

impl<M> Machine<M> {
    /// The registers and the bus of the machine.
    pub open spec fn data(self) -> Data<M> {
        Data { regs: self.cpu.regs, bus: self.bus }
    }

    /// The machine with other registers and another bus, and everything else
    /// as it is.
    pub open spec fn with_data(self, data: Data<M>) -> Self {
        Machine { cpu: Cpu { regs: data.regs, ..self.cpu }, bus: data.bus }
    }
}

/// One read on the bus.
pub open spec fn read<B: Bus>(d: Data<B::Model>, addr: u16) -> (u8, Data<B::Model>) {
    (B::value_at(d.bus, addr), Data { bus: B::after_read(d.bus, addr), ..d })
}

/// One write on the bus.
pub open spec fn write<B: Bus>(d: Data<B::Model>, addr: u16, value: u8) -> Data<B::Model> {
    Data { bus: B::after_write(d.bus, addr, value), ..d }
}

/// One cycle in which the processor works and the bus idles.
pub open spec fn tick<B: Bus>(d: Data<B::Model>) -> Data<B::Model> {
    Data { bus: B::after_tick(d.bus), ..d }
}

/// Reads the byte at the program counter and moves the program counter past
/// it.
pub open spec fn fetch8<B: Bus>(d: Data<B::Model>) -> (u8, Data<B::Model>) {
    let (value, d1) = read::<B>(d, d.regs.pc);
    (value, d1.with_pc(wrap16(d.regs.pc + 1)))
}

/// Reads the two bytes at the program counter, low byte first.
pub open spec fn fetch16<B: Bus>(d: Data<B::Model>) -> (u16, Data<B::Model>) {
    let (lo, d1) = fetch8::<B>(d);
    let (hi, d2) = fetch8::<B>(d1);
    (pair(hi, lo), d2)
}

/// Pushes a word: the high byte goes to the address below the stack pointer,
/// the low byte below that, and the stack pointer ends two lower.
pub open spec fn push<B: Bus>(d: Data<B::Model>, value: u16) -> Data<B::Model> {
    let sp = d.regs.sp;
    let d1 = write::<B>(d, wrap16(sp - 1), high(value));
    let d2 = write::<B>(d1, wrap16(sp - 2), low(value));
    d2.with_sp(wrap16(sp - 2))
}

/// Pops a word: the low byte comes from the stack pointer, the high byte from
/// the address above it, and the stack pointer ends two higher.
pub open spec fn pop<B: Bus>(d: Data<B::Model>) -> (u16, Data<B::Model>) {
    let sp = d.regs.sp;
    let (lo, d1) = read::<B>(d, sp);
    let (hi, d2) = read::<B>(d1, wrap16(sp + 1));
    (pair(hi, lo), d2.with_sp(wrap16(sp + 2)))
}

/// The address a memory operand names. Address bytes that follow the opcode
/// are fetched, and HL is moved where the operand says so.
pub open spec fn resolve<B: Bus>(d: Data<B::Model>, addr: Addr) -> (u16, Data<B::Model>) {
    let hl = d.regs.reg16(Reg16::HL);
    match addr {
        Addr::BC => (d.regs.reg16(Reg16::BC), d),
        Addr::DE => (d.regs.reg16(Reg16::DE), d),
        Addr::HL => (hl, d),
        Addr::HLD => (hl, d.with_regs(d.regs.with_reg16(Reg16::HL, wrap16(hl - 1)))),
        Addr::HLI => (hl, d.with_regs(d.regs.with_reg16(Reg16::HL, wrap16(hl + 1)))),
        Addr::Direct => fetch16::<B>(d),
        Addr::ZeroPage => {
            let (offset, d1) = fetch8::<B>(d);
            (pair(0xFF, offset), d1)
        },
        Addr::ZeroPageC => (pair(0xFF, d.regs.c), d),
    }
}

/// The machine cycles it takes to find the address of a memory operand.
pub open spec fn resolve_cost(addr: Addr) -> int {
    match addr {
        Addr::Direct => 2,
        Addr::ZeroPage => 1,
        _ => 0,
    }
}

/// The byte an operand holds.
pub open spec fn read_operand<B: Bus>(d: Data<B::Model>, operand: Operand) -> (
    u8,
    Data<B::Model>,
) {
    match operand {
        Operand::Reg(reg) => (d.regs.reg8(reg), d),
        Operand::Immediate8 => fetch8::<B>(d),
        Operand::Mem(addr) => {
            let (at, d1) = resolve::<B>(d, addr);
            read::<B>(d1, at)
        },
    }
}

/// The machine cycles it takes to read an operand.
pub open spec fn read_cost(operand: Operand) -> int {
    match operand {
        Operand::Reg(_) => 0,
        Operand::Immediate8 => 1,
        Operand::Mem(addr) => resolve_cost(addr) + 1,
    }
}

/// The registers and the bus after a byte is written to an operand.
pub open spec fn write_operand<B: Bus>(d: Data<B::Model>, operand: Operand, value: u8) -> Data<
    B::Model,
> {
    match operand {
        Operand::Reg(reg) => d.with_regs(d.regs.with_reg8(reg, value)),
        Operand::Immediate8 => d,
        Operand::Mem(addr) => {
            let (at, d1) = resolve::<B>(d, addr);
            write::<B>(d1, at, value)
        },
    }
}

/// The machine cycles it takes to write an operand.
pub open spec fn write_cost(operand: Operand) -> int {
    match operand {
        Operand::Reg(_) => 0,
        Operand::Immediate8 => 0,
        Operand::Mem(addr) => resolve_cost(addr) + 1,
    }
}

/// The jump itself, once the target is known: one more cycle, then the
/// program counter is the target.
pub open spec fn jump_to<B: Bus>(d: Data<B::Model>, target: u16) -> Data<B::Model> {
    tick::<B>(d).with_pc(target)
}

/// The call itself, once the target is known: one more cycle, the address of
/// the next instruction is pushed, then the program counter is the target.
pub open spec fn call_to<B: Bus>(d: Data<B::Model>, target: u16) -> Data<B::Model> {
    push::<B>(tick::<B>(d), d.regs.pc).with_pc(target)
}

/// The return itself: the target is popped, then one more cycle.
pub open spec fn return_from<B: Bus>(d: Data<B::Model>) -> Data<B::Model> {
    let (target, d1) = pop::<B>(d);
    tick::<B>(d1).with_pc(target)
}

/// Whether a condition holds of the flags in `d`.
pub open spec fn holds<M>(d: Data<M>, cond: Cond) -> bool {
    cond.holds(d.regs.flags.z, d.regs.flags.c)
}

/// A load copies a byte from `src` to `dst` and touches no flag.
pub open spec fn load<B: Bus>(d: Data<B::Model>, dst: Operand, src: Operand) -> (
    Data<B::Model>,
    int,
) {
    let (value, d1) = read_operand::<B>(d, src);
    (write_operand::<B>(d1, dst, value), 1 + read_cost(src) + write_cost(dst))
}

/// The accumulator is combined with an operand; the flags are those of the
/// operation.
pub open spec fn alu<B: Bus>(d: Data<B::Model>, op: AluOp, src: Operand) -> (Data<B::Model>, int) {
    let (value, d1) = read_operand::<B>(d, src);
    let (a, flags) = alu_spec(op, d1.regs.a, value, d1.regs.flags.c);
    (d1.with_regs(RegisterFile { a, flags, ..d1.regs }), 1 + read_cost(src))
}

/// An operand is incremented in place. The carry flag is not touched.
pub open spec fn inc<B: Bus>(d: Data<B::Model>, operand: Operand) -> (Data<B::Model>, int) {
    let (value, d1) = read_operand::<B>(d, operand);
    let (result, flags) = inc8_spec(value, d1.regs.flags);
    (
        write_operand::<B>(d1, operand, result).with_flags(flags),
        1 + read_cost(operand) + write_cost(operand),
    )
}

/// An operand is decremented in place. The carry flag is not touched.
pub open spec fn dec<B: Bus>(d: Data<B::Model>, operand: Operand) -> (Data<B::Model>, int) {
    let (value, d1) = read_operand::<B>(d, operand);
    let (result, flags) = dec8_spec(value, d1.regs.flags);
    (
        write_operand::<B>(d1, operand, result).with_flags(flags),
        1 + read_cost(operand) + write_cost(operand),
    )
}

/// One of the four short rotates of the accumulator.
pub open spec fn rotate_a<M>(d: Data<M>, op: RotOp) -> (Data<M>, int) {
    let (a, flags) = rotate_a_spec(op, d.regs.a, d.regs.flags.c);
    (d.with_regs(RegisterFile { a, flags, ..d.regs }), 1)
}

/// The accumulator is adjusted to two decimal digits.
pub open spec fn daa<M>(d: Data<M>) -> (Data<M>, int) {
    let (a, flags) = daa_spec(d.regs.a, d.regs.flags);
    (d.with_regs(RegisterFile { a, flags, ..d.regs }), 1)
}

/// The accumulator is inverted.
pub open spec fn cpl<M>(d: Data<M>) -> (Data<M>, int) {
    let (a, flags) = cpl_spec(d.regs.a, d.regs.flags);
    (d.with_regs(RegisterFile { a, flags, ..d.regs }), 1)
}

/// The carry flag is inverted.
pub open spec fn ccf<M>(d: Data<M>) -> (Data<M>, int) {
    (d.with_flags(ccf_spec(d.regs.flags)), 1)
}

/// The carry flag is set.
pub open spec fn scf<M>(d: Data<M>) -> (Data<M>, int) {
    (d.with_flags(scf_spec(d.regs.flags)), 1)
}

/// A jump to the address that follows the opcode.
pub open spec fn jp<B: Bus>(d: Data<B::Model>) -> (Data<B::Model>, int) {
    let (target, d1) = fetch16::<B>(d);
    (jump_to::<B>(d1, target), 4)
}

/// A jump to the address in HL.
pub open spec fn jp_hl<M>(d: Data<M>) -> (Data<M>, int) {
    (d.with_pc(d.regs.reg16(Reg16::HL)), 1)
}

/// The target of a relative jump is counted from the address after the
/// displacement byte.
pub open spec fn jr<B: Bus>(d: Data<B::Model>) -> (Data<B::Model>, int) {
    let (displacement, d1) = fetch8::<B>(d);
    (jump_to::<B>(d1, offset_spec(d1.regs.pc, displacement)), 3)
}

/// A call of the address that follows the opcode. What is pushed is the
/// address of the instruction after the call.
pub open spec fn call<B: Bus>(d: Data<B::Model>) -> (Data<B::Model>, int) {
    let (target, d1) = fetch16::<B>(d);
    (call_to::<B>(d1, target), 6)
}

/// A return to the address on the stack.
pub open spec fn ret<B: Bus>(d: Data<B::Model>) -> (Data<B::Model>, int) {
    (return_from::<B>(d), 4)
}

/// Four cycles if the jump is taken, three if not.
pub open spec fn jp_cc<B: Bus>(d: Data<B::Model>, cond: Cond) -> (Data<B::Model>, int) {
    let (target, d1) = fetch16::<B>(d);
    if holds(d, cond) {
        (jump_to::<B>(d1, target), 4)
    } else {
        (d1, 3)
    }
}

/// Three cycles if the jump is taken, two if not.
pub open spec fn jr_cc<B: Bus>(d: Data<B::Model>, cond: Cond) -> (Data<B::Model>, int) {
    let (displacement, d1) = fetch8::<B>(d);
    if holds(d, cond) {
        (jump_to::<B>(d1, offset_spec(d1.regs.pc, displacement)), 3)
    } else {
        (d1, 2)
    }
}

/// Six cycles if the call is taken, three if not.
pub open spec fn call_cc<B: Bus>(d: Data<B::Model>, cond: Cond) -> (Data<B::Model>, int) {
    let (target, d1) = fetch16::<B>(d);
    if holds(d, cond) {
        (call_to::<B>(d1, target), 6)
    } else {
        (d1, 3)
    }
}

/// The condition is tested in a cycle of its own: five cycles if the return
/// is taken, two if not.
pub open spec fn ret_cc<B: Bus>(d: Data<B::Model>, cond: Cond) -> (Data<B::Model>, int) {
    let d1 = tick::<B>(d);
    if holds(d, cond) {
        (return_from::<B>(d1), 5)
    } else {
        (d1, 2)
    }
}

/// A call of a fixed address in the low page.
pub open spec fn rst<B: Bus>(d: Data<B::Model>, target: u8) -> (Data<B::Model>, int) {
    (call_to::<B>(d, target as u16), 4)
}

/// A 16-bit register is loaded with the word that follows the opcode.
pub open spec fn load16_imm<B: Bus>(d: Data<B::Model>, reg: Reg16) -> (Data<B::Model>, int) {
    let (value, d1) = fetch16::<B>(d);
    (d1.with_regs(d1.regs.with_reg16(reg, value)), 3)
}

/// The stack pointer is stored at the address that follows the opcode, low
/// byte first.
pub open spec fn load16_nn_sp<B: Bus>(d: Data<B::Model>) -> (Data<B::Model>, int) {
    let (at, d1) = fetch16::<B>(d);
    let sp = d.regs.sp;
    (write::<B>(write::<B>(d1, at, low(sp)), wrap16(at + 1), high(sp)), 5)
}

/// HL is copied to the stack pointer.
pub open spec fn load16_sp_hl<B: Bus>(d: Data<B::Model>) -> (Data<B::Model>, int) {
    (tick::<B>(d).with_sp(d.regs.reg16(Reg16::HL)), 2)
}

/// HL is loaded with the stack pointer moved by a signed displacement. The
/// stack pointer stays.
pub open spec fn load16_hl_sp_e<B: Bus>(d: Data<B::Model>) -> (Data<B::Model>, int) {
    let (displacement, d1) = fetch8::<B>(d);
    let d2 = tick::<B>(d1);
    let (value, flags) = add_sp_spec(d2.regs.sp, displacement);
    (d2.with_regs(d2.regs.with_reg16(Reg16::HL, value)).with_flags(flags), 3)
}

/// A 16-bit register is pushed.
pub open spec fn push16<B: Bus>(d: Data<B::Model>, reg: Reg16) -> (Data<B::Model>, int) {
    (push::<B>(tick::<B>(d), d.regs.reg16(reg)), 4)
}

/// A 16-bit register is popped.
pub open spec fn pop16<B: Bus>(d: Data<B::Model>, reg: Reg16) -> (Data<B::Model>, int) {
    let (value, d1) = pop::<B>(d);
    (d1.with_regs(d1.regs.with_reg16(reg, value)), 3)
}

/// A 16-bit register is added to HL.
pub open spec fn add16<B: Bus>(d: Data<B::Model>, reg: Reg16) -> (Data<B::Model>, int) {
    let (value, flags) = add16_spec(d.regs.reg16(Reg16::HL), d.regs.reg16(reg), d.regs.flags);
    (tick::<B>(d).with_regs(d.regs.with_reg16(Reg16::HL, value)).with_flags(flags), 2)
}

/// The stack pointer is moved by a signed displacement.
pub open spec fn add16_sp_e<B: Bus>(d: Data<B::Model>) -> (Data<B::Model>, int) {
    let (displacement, d1) = fetch8::<B>(d);
    let d2 = tick::<B>(tick::<B>(d1));
    let (sp, flags) = add_sp_spec(d2.regs.sp, displacement);
    (d2.with_sp(sp).with_flags(flags), 4)
}

/// A 16-bit register is incremented. No flag is touched.
pub open spec fn inc16<B: Bus>(d: Data<B::Model>, reg: Reg16) -> (Data<B::Model>, int) {
    (tick::<B>(d).with_regs(d.regs.with_reg16(reg, wrap16(d.regs.reg16(reg) + 1))), 2)
}

/// A 16-bit register is decremented. No flag is touched.
pub open spec fn dec16<B: Bus>(d: Data<B::Model>, reg: Reg16) -> (Data<B::Model>, int) {
    (tick::<B>(d).with_regs(d.regs.with_reg16(reg, wrap16(d.regs.reg16(reg) - 1))), 2)
}

/// An operand is rotated or shifted in place.
pub open spec fn rotate<B: Bus>(d: Data<B::Model>, op: RotOp, operand: Operand) -> (
    Data<B::Model>,
    int,
) {
    let (value, d1) = read_operand::<B>(d, operand);
    let (result, flags) = rotate_spec(op, value, d1.regs.flags.c);
    (
        write_operand::<B>(d1, operand, result).with_flags(flags),
        1 + read_cost(operand) + write_cost(operand),
    )
}

/// A bit test reads its operand and writes nothing.
pub open spec fn test_bit<B: Bus>(d: Data<B::Model>, index: u8, operand: Operand) -> (
    Data<B::Model>,
    int,
) {
    let (value, d1) = read_operand::<B>(d, operand);
    (d1.with_flags(bit_test_spec(index, value, d1.regs.flags)), 1 + read_cost(operand))
}

/// A bit of an operand is set in place. No flag is touched.
pub open spec fn set_bit<B: Bus>(d: Data<B::Model>, index: u8, operand: Operand) -> (
    Data<B::Model>,
    int,
) {
    let (value, d1) = read_operand::<B>(d, operand);
    (
        write_operand::<B>(d1, operand, bit_set_spec(index, value)),
        1 + read_cost(operand) + write_cost(operand),
    )
}

/// A bit of an operand is cleared in place. No flag is touched.
pub open spec fn reset_bit<B: Bus>(d: Data<B::Model>, index: u8, operand: Operand) -> (
    Data<B::Model>,
    int,
) {
    let (value, d1) = read_operand::<B>(d, operand);
    (
        write_operand::<B>(d1, operand, bit_reset_spec(index, value)),
        1 + read_cost(operand) + write_cost(operand),
    )
}

/// What an instruction of the extended space computes, and the cycles it
/// takes. The cycles count the fetch of its opcode, not that of the prefix.
#[verifier::opaque]
pub open spec fn compute_extended<B: Bus>(d: Data<B::Model>, instr: Extended) -> (
    Data<B::Model>,
    int,
) {
    match instr {
        Extended::Rotate(op, operand) => rotate::<B>(d, op, operand),
        Extended::TestBit(index, operand) => test_bit::<B>(d, index, operand),
        Extended::SetBit(index, operand) => set_bit::<B>(d, index, operand),
        Extended::ResetBit(index, operand) => reset_bit::<B>(d, index, operand),
    }
}

/// The prefix does nothing of its own: the next byte is fetched and
/// dispatched through the extended table.
pub open spec fn cb_prefix<B: Bus>(d: Data<B::Model>) -> (Data<B::Model>, int) {
    let (op, d1) = fetch8::<B>(d);
    let (d2, cycles) = compute_extended::<B>(d1, extended_of(op));
    (d2, cycles + 1)
}

/// What an instruction of the base space computes on the registers and the
/// bus once its opcode has been fetched, and the cycles it takes, that fetch
/// counted.
#[verifier::opaque]
pub open spec fn compute<B: Bus>(d: Data<B::Model>, instr: Instr) -> (Data<B::Model>, int) {
    match instr {
        Instr::Load(dst, src) => load::<B>(d, dst, src),
        Instr::Alu(op, src) => alu::<B>(d, op, src),
        Instr::Inc(operand) => inc::<B>(d, operand),
        Instr::Dec(operand) => dec::<B>(d, operand),
        Instr::RotateA(op) => rotate_a(d, op),
        Instr::Jp => jp::<B>(d),
        Instr::JpHl => jp_hl(d),
        Instr::Jr => jr::<B>(d),
        Instr::Call => call::<B>(d),
        Instr::Ret | Instr::Reti => ret::<B>(d),
        Instr::JpCc(cond) => jp_cc::<B>(d, cond),
        Instr::JrCc(cond) => jr_cc::<B>(d, cond),
        Instr::CallCc(cond) => call_cc::<B>(d, cond),
        Instr::RetCc(cond) => ret_cc::<B>(d, cond),
        Instr::Rst(target) => rst::<B>(d, target),
        Instr::Ccf => ccf(d),
        Instr::Scf => scf(d),
        Instr::Daa => daa(d),
        Instr::Cpl => cpl(d),
        Instr::Load16Imm(reg) => load16_imm::<B>(d, reg),
        Instr::Load16NnSp => load16_nn_sp::<B>(d),
        Instr::Load16SpHl => load16_sp_hl::<B>(d),
        Instr::Load16HlSpE => load16_hl_sp_e::<B>(d),
        Instr::Push16(reg) => push16::<B>(d, reg),
        Instr::Pop16(reg) => pop16::<B>(d, reg),
        Instr::Add16(reg) => add16::<B>(d, reg),
        Instr::Add16SpE => add16_sp_e::<B>(d),
        Instr::Inc16(reg) => inc16::<B>(d, reg),
        Instr::Dec16(reg) => dec16::<B>(d, reg),
        Instr::CbPrefix => cb_prefix::<B>(d),
        Instr::Nop | Instr::Halt | Instr::Stop | Instr::Di | Instr::Ei | Instr::Undefined(_) => (
            d,
            1,
        ),
    }
}

/// What an instruction does to the execution state and the interrupt enable,
/// and what it signals. `requested` says whether an interrupt is requested.
///
/// Six instructions do anything here. A halt with interrupts disabled and a
/// request already there cannot halt: the processor goes on, and fetches the
/// next opcode without moving the program counter. The enable instruction
/// does not enable yet: the enable is noted, and takes effect when the next
/// instruction has completed. The disable instruction drops such a note. The
/// return from an interrupt enables at once. An undefined opcode locks the
/// processor up.
pub open spec fn control(cpu: Cpu, instr: Instr, requested: bool) -> (Cpu, Option<Signal>) {
    match instr {
        Instr::Halt => if !cpu.ime && requested {
            (Cpu { halt_bug: true, ..cpu }, None)
        } else {
            (Cpu { power: Power::Halted, ..cpu }, Some(Signal::Halt))
        },
        Instr::Stop => (Cpu { power: Power::Stopped, ..cpu }, Some(Signal::Stop)),
        Instr::Di => (Cpu { ime: false, ime_pending: false, ..cpu }, None),
        Instr::Ei => (Cpu { ime_pending: true, ..cpu }, None),
        Instr::Reti => (Cpu { ime: true, ..cpu }, None),
        Instr::Undefined(_) => (Cpu { power: Power::Locked, ..cpu }, Some(Signal::Undefined)),
        _ => (cpu, None),
    }
}

/// The machine after an instruction that computed `effect`, took the cycles
/// that go with it, and left the rest of the processor as in `cpu`.
pub open spec fn conclude<M>(cpu: Cpu, effect: (Data<M>, int), signal: Option<Signal>) -> Outcome<
    M,
> {
    Outcome {
        cpu: Cpu { regs: effect.0.regs, ..cpu },
        bus: effect.0.bus,
        step: Step { cycles: effect.1 as u8, signal },
    }
}

/// What an instruction of the extended space does: it computes, and leaves
/// everything but registers and bus alone.
pub open spec fn execute_extended<B: Bus>(m: Machine<B::Model>, instr: Extended) -> Outcome<
    B::Model,
> {
    conclude(m.cpu, compute_extended::<B>(m.data(), instr), None)
}

/// What an instruction of the base space does, once its opcode has been
/// fetched.
pub open spec fn execute<B: Bus>(m: Machine<B::Model>, instr: Instr) -> Outcome<B::Model> {
    let (cpu, signal) = control(m.cpu, instr, B::pending(m.bus) is Some);
    conclude(cpu, compute::<B>(m.data(), instr), signal)
}

/// The implicit call to the vector of an interrupt: two idle cycles, the
/// program counter is pushed, and a last cycle loads it with the vector.
/// Interrupts are disabled by it, and it signals which interrupt was taken.
pub open spec fn interrupt<B: Bus>(m: Machine<B::Model>, irq: Interrupt) -> Outcome<B::Model> {
    let d1 = push::<B>(tick::<B>(tick::<B>(m.data())), m.cpu.regs.pc);
    conclude(
        Cpu { ime: false, ime_pending: false, halt_bug: false, ..m.cpu },
        (tick::<B>(d1).with_pc(irq.vector_spec()), 5),
        Some(Signal::Interrupt(irq)),
    )
}

/// One instruction: the opcode is fetched and dispatched through the base
/// table. After a halt that could not halt, the fetch leaves the program
/// counter where it is. An enable noted before this instruction takes effect
/// when it has completed, unless the instruction dropped it.
pub open spec fn fetch_execute<B: Bus>(m: Machine<B::Model>) -> Outcome<B::Model> {
    let pc = m.cpu.regs.pc;
    let (op, d1) = read::<B>(m.data(), pc);
    let next = if m.cpu.halt_bug {
        pc
    } else {
        wrap16(pc + 1)
    };
    let m1 = Machine { cpu: Cpu { halt_bug: false, ..m.cpu }, ..m }.with_data(d1.with_pc(next));
    let out = execute::<B>(m1, instr_of(op));
    if m.cpu.ime_pending && out.cpu.ime_pending {
        Outcome { cpu: Cpu { ime: true, ime_pending: false, ..out.cpu }, ..out }
    } else {
        out
    }
}

/// One step of a running processor: the interrupt request is looked at
/// first, and taken if interrupts are enabled; otherwise one instruction is
/// executed.
pub open spec fn run<B: Bus>(m: Machine<B::Model>) -> Outcome<B::Model> {
    match B::pending(m.bus) {
        Some(irq) if m.cpu.ime => interrupt::<B>(m, irq),
        _ => fetch_execute::<B>(m),
    }
}

/// A cycle passes and nothing else happens.
pub open spec fn idle<B: Bus>(m: Machine<B::Model>) -> Outcome<B::Model> {
    conclude(m.cpu, (tick::<B>(m.data()), 1), None)
}

/// One step. A stopped or locked processor lets a cycle pass. A halted one
/// does so until an interrupt is requested, and then runs again.
pub open spec fn step<B: Bus>(m: Machine<B::Model>) -> Outcome<B::Model> {
    match m.cpu.power {
        Power::Running => run::<B>(m),
        Power::Halted => if B::pending(m.bus) is Some {
            run::<B>(Machine { cpu: Cpu { power: Power::Running, ..m.cpu }, ..m })
        } else {
            idle::<B>(m)
        },
        Power::Stopped | Power::Locked => idle::<B>(m),
    }
}

} // verus!
