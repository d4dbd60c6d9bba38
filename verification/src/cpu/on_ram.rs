//! What holds of the processor when plain memory is behind the bus: time is
//! the count of accesses, and what was written is what is read.

use vstd::prelude::*;
use crate::cpu::alu::{
    bit_reset_spec, bit_set_spec, dec8_spec, inc8_spec, offset_spec, rotate_spec,
};
use crate::cpu::decode::{extended_of, instr_of, Extended, Instr};
use crate::cpu::laws::{lemma_cycles_in_range, lemma_extended_cycles};
use crate::cpu::register_file::{high, low, pair, Reg16};
use crate::cpu::semantics;
use crate::cpu::semantics::{wrap16, Data, Machine};
use crate::cpu::{Addr, Cpu, Operand, Power};
use crate::hardware::ram::{Ram, RamModel};

verus! {

/// The accesses made between two states of the memory.
pub open spec fn accesses(before: RamModel, after: RamModel) -> int {
    after.elapsed - before.elapsed
}

proof fn lemma_fetch_and_stack(d: Data<RamModel>, value: u16, target: u16)
    ensures
        accesses(d.bus, semantics::fetch8::<Ram>(d).1.bus) == 1,
        accesses(d.bus, semantics::fetch16::<Ram>(d).1.bus) == 2,
        accesses(d.bus, semantics::push::<Ram>(d, value).bus) == 2,
        accesses(d.bus, semantics::pop::<Ram>(d).1.bus) == 2,
        accesses(d.bus, semantics::jump_to::<Ram>(d, target).bus) == 1,
        accesses(d.bus, semantics::call_to::<Ram>(d, target).bus) == 3,
        accesses(d.bus, semantics::return_from::<Ram>(d).bus) == 3,
{
}

proof fn lemma_resolve(d: Data<RamModel>, addr: Addr)
    ensures
        accesses(d.bus, semantics::resolve::<Ram>(d, addr).1.bus) == semantics::resolve_cost(addr),
{
    lemma_fetch_and_stack(d, 0, 0);
}

/// Reading an operand makes as many accesses as it is said to cost, and so
/// does writing one.
pub proof fn lemma_operand_accesses(d: Data<RamModel>, operand: Operand, value: u8)
    ensures
        accesses(d.bus, semantics::read_operand::<Ram>(d, operand).1.bus) == semantics::read_cost(
            operand,
        ),
        accesses(d.bus, semantics::write_operand::<Ram>(d, operand, value).bus)
            == semantics::write_cost(operand),
{
    lemma_fetch_and_stack(d, 0, 0);
    match operand {
        Operand::Mem(addr) => lemma_resolve(d, addr),
        _ => {},
    }
}

proof fn lemma_read_then_write(d: Data<RamModel>, operand: Operand, value: u8)
    ensures
        accesses(
            d.bus,
            semantics::write_operand::<Ram>(
                semantics::read_operand::<Ram>(d, operand).1,
                operand,
                value,
            ).bus,
        ) == semantics::read_cost(operand) + semantics::write_cost(operand),
{
    lemma_operand_accesses(d, operand, 0);
    lemma_operand_accesses(semantics::read_operand::<Ram>(d, operand).1, operand, value);
}

proof fn lemma_extended_accesses(d: Data<RamModel>, instr: Extended)
    ensures
        accesses(d.bus, semantics::compute_extended::<Ram>(d, instr).0.bus) + 1
            == semantics::compute_extended::<Ram>(d, instr).1,
{
    reveal(semantics::compute_extended);
    match instr {
        Extended::Rotate(op, operand) => {
            let (value, d1) = semantics::read_operand::<Ram>(d, operand);
            lemma_read_then_write(
                d,
                operand,
                rotate_spec(op, value, d1.regs.flags.c).0,
            );
        },
        Extended::TestBit(_, operand) => lemma_operand_accesses(d, operand, 0),
        Extended::SetBit(index, operand) => {
            let value = semantics::read_operand::<Ram>(d, operand).0;
            lemma_read_then_write(d, operand, bit_set_spec(index, value));
        },
        Extended::ResetBit(index, operand) => {
            let value = semantics::read_operand::<Ram>(d, operand).0;
            lemma_read_then_write(d, operand, bit_reset_spec(index, value));
        },
    }
}

proof fn lemma_instruction_accesses(d: Data<RamModel>, instr: Instr)
    ensures
        accesses(d.bus, semantics::compute::<Ram>(d, instr).0.bus) + 1 == semantics::compute::<Ram>(
            d,
            instr,
        ).1,
{
    reveal(semantics::compute);
    match instr {
        Instr::Load(dst, src) => {
            let (value, d1) = semantics::read_operand::<Ram>(d, src);
            lemma_operand_accesses(d, src, 0);
            lemma_operand_accesses(d1, dst, value);
        },
        Instr::Alu(_, src) => lemma_operand_accesses(d, src, 0),
        Instr::Inc(operand) => {
            let (value, d1) = semantics::read_operand::<Ram>(d, operand);
            lemma_read_then_write(d, operand, inc8_spec(value, d1.regs.flags).0);
        },
        Instr::Dec(operand) => {
            let (value, d1) = semantics::read_operand::<Ram>(d, operand);
            lemma_read_then_write(d, operand, dec8_spec(value, d1.regs.flags).0);
        },
        Instr::Jp | Instr::JpCc(_) | Instr::Call | Instr::CallCc(_) | Instr::Load16Imm(_)
        | Instr::Load16NnSp => {
            let (target, d1) = semantics::fetch16::<Ram>(d);
            lemma_fetch_and_stack(d, 0, 0);
            lemma_fetch_and_stack(d1, 0, target);
        },
        Instr::Jr | Instr::JrCc(_) | Instr::Load16HlSpE | Instr::Add16SpE => {
            let (displacement, d1) = semantics::fetch8::<Ram>(d);
            lemma_fetch_and_stack(d, 0, 0);
            lemma_fetch_and_stack(
                d1,
                0,
                offset_spec(d1.regs.pc, displacement),
            );
        },
        Instr::Ret | Instr::Reti | Instr::Pop16(_) => lemma_fetch_and_stack(d, 0, 0),
        Instr::RetCc(_) => lemma_fetch_and_stack(semantics::tick::<Ram>(d), 0, 0),
        Instr::Rst(target) => lemma_fetch_and_stack(d, 0, target as u16),
        Instr::Push16(reg) => lemma_fetch_and_stack(
            semantics::tick::<Ram>(d),
            d.regs.reg16(reg),
            0,
        ),
        Instr::CbPrefix => {
            let (op, d1) = semantics::fetch8::<Ram>(d);
            lemma_fetch_and_stack(d, 0, 0);
            lemma_extended_accesses(d1, extended_of(op));
        },
        _ => {},
    }
}

/// The cycles a step returns are the accesses it made: every read, every
/// write and every idle tick is one cycle, and no cycle passes without one.
///
/// A dispatch that is handed its opcode returns one cycle more than it made
/// accesses: the fetch of the opcode, which its caller made.
pub proof fn lemma_cycles_are_accesses(m: Machine<RamModel>, instr: Instr, extended: Extended)
    ensures
        accesses(m.bus, semantics::step::<Ram>(m).bus) == semantics::step::<Ram>(m).step.cycles,
        accesses(m.bus, semantics::execute::<Ram>(m, instr).bus) + 1 == semantics::execute::<Ram>(
            m,
            instr,
        ).step.cycles,
        accesses(m.bus, semantics::execute_extended::<Ram>(m, extended).bus) + 1
            == semantics::execute_extended::<Ram>(m, extended).step.cycles,
{
    lemma_instruction_accesses(m.data(), instr);
    lemma_cycles_in_range::<Ram>(m, instr);
    lemma_extended_accesses(m.data(), extended);
    lemma_extended_cycles::<Ram>(m.data(), extended);
    lemma_fetch_and_stack(semantics::tick::<Ram>(semantics::tick::<Ram>(m.data())), m.cpu.regs.pc, 0);
    lemma_fetched_instruction(m);
    lemma_fetched_instruction(
        Machine { cpu: Cpu { power: Power::Running, ..m.cpu }, ..m },
    );
}

proof fn lemma_fetched_instruction(m: Machine<RamModel>)
    ensures
        accesses(m.bus, semantics::fetch_execute::<Ram>(m).bus) == semantics::fetch_execute::<Ram>(
            m,
        ).step.cycles,
{
    let pc = m.cpu.regs.pc;
    let (op, d1) = semantics::read::<Ram>(m.data(), pc);
    let next = if m.cpu.halt_bug {
        pc
    } else {
        wrap16(pc + 1)
    };
    let m1 = Machine { cpu: Cpu { halt_bug: false, ..m.cpu }, ..m }.with_data(
        d1.with_pc(next),
    );
    let instr = instr_of(op);
    lemma_instruction_accesses(m1.data(), instr);
    lemma_cycles_in_range::<Ram>(m1, instr);
}

/// What is pushed is what is popped. With memory behind every address, a
/// push of one 16-bit register followed by a pop into another leaves the
/// stack pointer where it was and the value of the first register in the
/// second, the flag register losing its low nibble as ever. In between, the
/// high byte lies just below where the stack pointer was, and the low byte
/// below that.
pub proof fn lemma_push_then_pop(m: Machine<RamModel>, from: Reg16, to: Reg16)
    requires
        m.bus.bytes.len() == 0x1_0000,
        to != Reg16::SP,
    ensures
        ({
            let pushed = semantics::execute::<Ram>(m, Instr::Push16(from));
            let popped = semantics::execute::<Ram>(
                Machine { cpu: pushed.cpu, bus: pushed.bus },
                Instr::Pop16(to),
            );
            let sp = m.cpu.regs.sp;
            let value = m.cpu.regs.reg16(from);
            &&& pushed.cpu.regs.sp == wrap16(sp - 2)
            &&& pushed.bus.at(wrap16(sp - 1)) == high(value)
            &&& pushed.bus.at(wrap16(sp - 2)) == low(value)
            &&& popped.cpu.regs == m.cpu.regs.with_reg16(to, value)
            &&& popped.cpu.regs.sp == sp
            &&& pushed.step.cycles == 4
            &&& popped.step.cycles == 3
        }),
{
    reveal(semantics::compute);
    let sp = m.cpu.regs.sp;
    let value = m.cpu.regs.reg16(from);
    assert(wrap16(wrap16(sp - 2) + 1) == wrap16(sp - 1));
    assert(wrap16(wrap16(sp - 2) + 2) == sp);
    assert(wrap16(sp - 1) != wrap16(sp - 2));
    assert(pair(high(value), low(value)) == value);
}

/// A byte stored through HL is the byte loaded through HL.
pub proof fn lemma_store_then_load(d: Data<RamModel>, value: u8)
    requires
        d.bus.bytes.len() == 0x1_0000,
    ensures
        semantics::read_operand::<Ram>(
            semantics::write_operand::<Ram>(d, Operand::Mem(Addr::HL), value),
            Operand::Mem(Addr::HL),
        ).0 == value,
{
}

} // verus!
