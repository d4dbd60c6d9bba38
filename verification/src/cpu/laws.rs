//! What holds of every instruction, whatever the state of the machine and
//! whatever is behind the bus.

use vstd::prelude::*;
use crate::cpu::decode::{extended_of, instr_of, is_undefined, Extended, Instr};
use crate::cpu::semantics;
use crate::cpu::alu::{bit_reset_spec, bit_set_spec, signed};
use crate::cpu::register_file::{Reg16, Reg8, RegisterFile};
use crate::cpu::semantics::{wrap16, Data, Machine, Outcome};
use crate::cpu::{Cond, Cpu, Operand, Power, Signal, Step};
use crate::hardware::{Bus, Interrupt};

verus! {

/// Whether two processors differ in their registers at most: the execution
/// state, the interrupt enable and its delay, and the halt quirk are the same.
pub open spec fn same_control(a: Cpu, b: Cpu) -> bool {
    a == (Cpu { regs: a.regs, ..b })
}

/// Reading an operand takes at most three cycles, and so does writing one.
pub proof fn lemma_operand_costs(operand: Operand)
    ensures
        0 <= semantics::read_cost(operand) <= 3,
        0 <= semantics::write_cost(operand) <= 3,
{
}

/// An instruction of the extended space takes one to seven cycles, the fetch
/// of its opcode counted.
pub proof fn lemma_extended_cycles<B: Bus>(d: Data<B::Model>, instr: Extended)
    ensures
        1 <= semantics::compute_extended::<B>(d, instr).1 <= 7,
{
    reveal(semantics::compute_extended);
    match instr {
        Extended::Rotate(_, operand) => lemma_operand_costs(operand),
        Extended::TestBit(_, operand) => lemma_operand_costs(operand),
        Extended::SetBit(_, operand) => lemma_operand_costs(operand),
        Extended::ResetBit(_, operand) => lemma_operand_costs(operand),
    }
}

/// No instruction of the extended space is undefined: each one runs to its
/// end without a signal, in one to seven cycles, and leaves the execution
/// state, the interrupt enable and the halt quirk as they were.
pub proof fn lemma_extended_is_total<B: Bus>(m: Machine<B::Model>, instr: Extended)
    ensures
        semantics::execute_extended::<B>(m, instr).step.signal is None,
        1 <= semantics::execute_extended::<B>(m, instr).step.cycles <= 7,
        same_control(semantics::execute_extended::<B>(m, instr).cpu, m.cpu),
{
    lemma_extended_cycles::<B>(m.data(), instr);
}

/// Every instruction of the base space takes one to eight cycles, the fetch
/// of its opcode counted.
pub proof fn lemma_cycles_in_range<B: Bus>(m: Machine<B::Model>, instr: Instr)
    ensures
        1 <= semantics::compute::<B>(m.data(), instr).1 <= 8,
        semantics::execute::<B>(m, instr).step.cycles == semantics::compute::<B>(
            m.data(),
            instr,
        ).1,
{
    reveal(semantics::compute);
    match instr {
        Instr::Load(dst, src) => {
            lemma_operand_costs(dst);
            lemma_operand_costs(src);
        },
        Instr::Alu(_, src) => lemma_operand_costs(src),
        Instr::Inc(operand) => lemma_operand_costs(operand),
        Instr::Dec(operand) => lemma_operand_costs(operand),
        Instr::CbPrefix => {
            let (op, d1) = semantics::fetch8::<B>(m.data());
            lemma_extended_cycles::<B>(d1, extended_of(op));
        },
        _ => {},
    }
}

/// An undefined opcode locks the processor up in one cycle, without a bus
/// access and without a change to any register. No other instruction locks
/// it up or signals an undefined opcode.
pub proof fn lemma_lockup_iff_undefined<B: Bus>(m: Machine<B::Model>, instr: Instr)
    ensures
        instr is Undefined ==> semantics::execute::<B>(m, instr) == (Outcome {
            cpu: Cpu { power: Power::Locked, ..m.cpu },
            bus: m.bus,
            step: Step { cycles: 1, signal: Some(Signal::Undefined) },
        }),
        instr !is Undefined ==> semantics::execute::<B>(m, instr).step.signal != Some(
            Signal::Undefined,
        ),
        instr !is Undefined && semantics::execute::<B>(m, instr).cpu.power == Power::Locked
            ==> m.cpu.power == Power::Locked,
{
    if instr is Undefined {
        reveal(semantics::compute);
    }
}

/// The undefined bytes of the base table are the eleven listed, and only
/// those.
pub proof fn lemma_undefined_opcodes(op: u8)
    ensures
        instr_of(op) is Undefined <==> is_undefined(op),
        instr_of(op) is Undefined <==> (op == 0xD3 || op == 0xDB || op == 0xDD || op == 0xE3 || op
            == 0xE4 || op == 0xEB || op == 0xEC || op == 0xED || op == 0xF4 || op == 0xFC || op
            == 0xFD),
{
}

/// A conditional relative jump takes two cycles when the condition fails and
/// three when it holds. Not taken, the program counter ends at the address
/// after the instruction; taken, at that address moved by the signed
/// displacement. Nothing else in the processor changes.
///
/// `m` is the machine after the opcode fetch: its program counter is at the
/// displacement byte.
pub proof fn lemma_conditional_relative_jump<B: Bus>(m: Machine<B::Model>, cond: Cond)
    ensures
        ({
            let out = semantics::execute::<B>(m, Instr::JrCc(cond));
            let displacement = B::value_at(m.bus, m.cpu.regs.pc);
            let after = wrap16(m.cpu.regs.pc + 1);
            let taken = cond.holds(m.cpu.regs.flags.z, m.cpu.regs.flags.c);
            &&& out.step == Step { cycles: if taken { 3u8 } else { 2u8 }, signal: None }
            &&& out.cpu.regs.pc == if taken {
                wrap16(after + signed(displacement))
            } else {
                after
            }
            &&& out.cpu == Cpu { regs: RegisterFile { pc: out.cpu.regs.pc, ..m.cpu.regs }, ..m.cpu }
        }),
{
    reveal(semantics::compute);
}

/// Whether a step took an interrupt.
pub open spec fn took_interrupt<M>(out: Outcome<M>) -> bool {
    out.step.signal matches Some(Signal::Interrupt(_))
}

/// The enable instruction takes effect one instruction late.
///
/// Start with interrupts disabled and the enable instruction at the program
/// counter, and take three steps; what is behind the bus may change between
/// them. The first step executes the enable instruction and leaves
/// interrupts disabled. The second step executes the instruction after it,
/// whether an interrupt is requested or not. Only then are interrupts
/// enabled (unless that instruction was the disable instruction), and a
/// request is taken by the third step.
pub proof fn lemma_enable_is_delayed<B: Bus>(m1: Machine<B::Model>, bus2: B::Model, bus3: B::Model)
    requires
        m1.cpu.power == Power::Running,
        !m1.cpu.ime,
        !m1.cpu.ime_pending,
        B::value_at(m1.bus, m1.cpu.regs.pc) == 0xFB,
    ensures
        ({
            let s1 = semantics::step::<B>(m1);
            let m2 = Machine { cpu: s1.cpu, bus: bus2 };
            let s2 = semantics::step::<B>(m2);
            let m3 = Machine { cpu: s2.cpu, bus: bus3 };
            let s3 = semantics::step::<B>(m3);
            let following = instr_of(B::value_at(bus2, s1.cpu.regs.pc));
            &&& s1.step == Step { cycles: 1, signal: None }
            &&& s1.cpu.power == Power::Running
            &&& !s1.cpu.ime
            &&& s2 == semantics::fetch_execute::<B>(m2)
            &&& !took_interrupt(s2)
            &&& following !is Di ==> s2.cpu.ime
            &&& following is Di ==> !s2.cpu.ime
            &&& following !is Di && s2.cpu.power == Power::Running ==> forall|irq: Interrupt|
                B::pending(bus3) == Some(irq) ==> s3 == semantics::interrupt::<B>(m3, irq)
        }),
{
    lemma_undefined_opcodes(0xFB);
    assert(instr_of(0xFB) == Instr::Ei);
    reveal(semantics::compute);
    let s1 = semantics::step::<B>(m1);
    assert(s1 == semantics::fetch_execute::<B>(m1));
    assert(s1.cpu.ime_pending);
}

/// A halt with interrupts disabled and an interrupt already requested does
/// not halt.
///
/// Start with interrupts disabled and the halt instruction at the program
/// counter, and let an interrupt be requested when the halt executes. The
/// step signals nothing and the processor keeps running: it neither halts
/// nor takes the interrupt. The next step fetches the byte after the halt
/// but leaves the program counter on it, so that the byte is fetched again
/// by what follows: once, for the quirk is then over.
pub proof fn lemma_halt_cannot_halt<B: Bus>(m1: Machine<B::Model>, bus2: B::Model)
    requires
        m1.cpu.power == Power::Running,
        !m1.cpu.ime,
        !m1.cpu.ime_pending,
        !m1.cpu.halt_bug,
        B::value_at(m1.bus, m1.cpu.regs.pc) == 0x76,
        B::pending(B::after_read(m1.bus, m1.cpu.regs.pc)) is Some,
    ensures
        ({
            let s1 = semantics::step::<B>(m1);
            let after_halt = wrap16(m1.cpu.regs.pc + 1);
            let m2 = Machine { cpu: s1.cpu, bus: bus2 };
            let s2 = semantics::step::<B>(m2);
            let following = instr_of(B::value_at(bus2, after_halt));
            &&& s1.step == Step { cycles: 1, signal: None }
            &&& s1.cpu == Cpu {
                regs: RegisterFile { pc: after_halt, ..m1.cpu.regs },
                halt_bug: true,
                ..m1.cpu
            }
            &&& !took_interrupt(s2)
            &&& s2 == semantics::execute::<B>(
                Machine { cpu: Cpu { halt_bug: false, ..s1.cpu }, bus: B::after_read(bus2, after_halt) },
                following,
            )
            &&& following !is Halt ==> !s2.cpu.halt_bug
        }),
{
    lemma_undefined_opcodes(0x76);
    assert(instr_of(0x76) == Instr::Halt);
    reveal(semantics::compute);
    let s1 = semantics::step::<B>(m1);
    assert(s1 == semantics::fetch_execute::<B>(m1));
}

/// A processor that is stopped or locked up stays as it is: a step lets one
/// cycle pass on the bus and changes nothing in the processor.
pub proof fn lemma_asleep_is_frozen<B: Bus>(m: Machine<B::Model>)
    requires
        m.cpu.power == Power::Stopped || m.cpu.power == Power::Locked,
    ensures
        semantics::step::<B>(m) == (Outcome {
            cpu: m.cpu,
            bus: B::after_tick(m.bus),
            step: Step { cycles: 1, signal: None },
        }),
{
}

/// A halted processor sleeps until an interrupt is requested: without a
/// request a step lets one cycle pass and changes nothing; with one, the
/// step is that of a running processor.
pub proof fn lemma_halted_wakes_on_request<B: Bus>(m: Machine<B::Model>)
    requires
        m.cpu.power == Power::Halted,
    ensures
        B::pending(m.bus) is None ==> semantics::step::<B>(m) == (Outcome {
            cpu: m.cpu,
            bus: B::after_tick(m.bus),
            step: Step { cycles: 1, signal: None },
        }),
        B::pending(m.bus) is Some ==> semantics::step::<B>(m) == semantics::step::<B>(
            Machine { cpu: Cpu { power: Power::Running, ..m.cpu }, ..m },
        ),
{
}

/// A running processor with interrupts enabled takes a requested interrupt
/// before it fetches anything: five cycles, interrupts disabled, the old
/// program counter on the stack, the new one at the vector.
pub proof fn lemma_interrupt_is_taken<B: Bus>(m: Machine<B::Model>, irq: Interrupt)
    requires
        m.cpu.power == Power::Running,
        m.cpu.ime,
        B::pending(m.bus) == Some(irq),
    ensures
        ({
            let out = semantics::step::<B>(m);
            &&& out == semantics::interrupt::<B>(m, irq)
            &&& out.step == Step { cycles: 5, signal: Some(Signal::Interrupt(irq)) }
            &&& !out.cpu.ime
            &&& out.cpu.regs.pc == irq.vector_spec()
            &&& out.cpu.regs.sp == wrap16(m.cpu.regs.sp - 2)
        }),
{
}

/// With interrupts disabled no step takes an interrupt, requested or not.
pub proof fn lemma_disabled_takes_none<B: Bus>(m: Machine<B::Model>)
    requires
        !m.cpu.ime,
    ensures
        !took_interrupt(semantics::step::<B>(m)),
{
}

/// A step of a running processor that fetches an undefined opcode locks the
/// processor up, and a step that fetches any other opcode does not.
pub proof fn lemma_step_locks_iff_undefined<B: Bus>(m: Machine<B::Model>)
    requires
        m.cpu.power == Power::Running,
        !m.cpu.ime || B::pending(m.bus) is None,
    ensures
        semantics::step::<B>(m).cpu.power == Power::Locked <==> is_undefined(
            B::value_at(m.bus, m.cpu.regs.pc),
        ),
        semantics::step::<B>(m).step.signal == Some(Signal::Undefined) <==> is_undefined(
            B::value_at(m.bus, m.cpu.regs.pc),
        ),
{
    let op = B::value_at(m.bus, m.cpu.regs.pc);
    lemma_undefined_opcodes(op);
    assert(semantics::step::<B>(m) == semantics::fetch_execute::<B>(m));
}

/// The instructions that are no business of the flags: loads, stack
/// traffic, jumps, calls and returns, 16-bit increments and decrements, and
/// those that only change the execution state. (Written to the flag
/// register itself, a byte or a word does of course change the flags.)
pub open spec fn leaves_flags(instr: Instr) -> bool {
    match instr {
        Instr::Load(dst, _) => dst != Operand::Reg(Reg8::F),
        Instr::Load16Imm(reg) | Instr::Pop16(reg) | Instr::Inc16(reg) | Instr::Dec16(reg) => reg
            != Reg16::AF,
        Instr::Nop
        | Instr::Jp
        | Instr::JpHl
        | Instr::Jr
        | Instr::Call
        | Instr::Ret
        | Instr::Reti
        | Instr::JpCc(_)
        | Instr::JrCc(_)
        | Instr::CallCc(_)
        | Instr::RetCc(_)
        | Instr::Rst(_)
        | Instr::Halt
        | Instr::Stop
        | Instr::Di
        | Instr::Ei
        | Instr::Load16NnSp
        | Instr::Load16SpHl
        | Instr::Push16(_)
        | Instr::Undefined(_) => true,
        _ => false,
    }
}

proof fn lemma_access_leaves_flags<B: Bus>(d: Data<B::Model>, operand: Operand, value: u8)
    ensures
        semantics::read_operand::<B>(d, operand).1.regs.flags == d.regs.flags,
        operand != Operand::Reg(Reg8::F) ==> semantics::write_operand::<B>(
            d,
            operand,
            value,
        ).regs.flags == d.regs.flags,
{
}

/// Such an instruction leaves every flag as it was.
pub proof fn lemma_flags_left_alone<B: Bus>(m: Machine<B::Model>, instr: Instr)
    requires
        leaves_flags(instr),
    ensures
        semantics::execute::<B>(m, instr).cpu.regs.flags == m.cpu.regs.flags,
{
    reveal(semantics::compute);
    match instr {
        Instr::Load(dst, src) => {
            let (value, d1) = semantics::read_operand::<B>(m.data(), src);
            lemma_access_leaves_flags::<B>(m.data(), src, 0);
            lemma_access_leaves_flags::<B>(d1, dst, value);
        },
        _ => {},
    }
}

/// In the extended space, setting and clearing a bit leave every flag as it
/// was, and a bit test leaves the carry flag and writes nothing: with a
/// register for operand the bus is not touched at all.
pub proof fn lemma_bit_instructions<B: Bus>(m: Machine<B::Model>, index: u8, operand: Operand)
    requires
        operand != Operand::Reg(Reg8::F),
    ensures
        semantics::execute_extended::<B>(m, Extended::SetBit(index, operand)).cpu.regs.flags
            == m.cpu.regs.flags,
        semantics::execute_extended::<B>(m, Extended::ResetBit(index, operand)).cpu.regs.flags
            == m.cpu.regs.flags,
        semantics::execute_extended::<B>(m, Extended::TestBit(index, operand)).cpu.regs.flags.c
            == m.cpu.regs.flags.c,
        semantics::execute_extended::<B>(m, Extended::TestBit(index, operand)).bus
            == semantics::read_operand::<B>(m.data(), operand).1.bus,
        operand is Reg ==> semantics::execute_extended::<B>(
            m,
            Extended::TestBit(index, operand),
        ).bus == m.bus,
{
    reveal(semantics::compute_extended);
    let (value, d1) = semantics::read_operand::<B>(m.data(), operand);
    lemma_access_leaves_flags::<B>(m.data(), operand, 0);
    lemma_access_leaves_flags::<B>(d1, operand, bit_set_spec(index, value));
    lemma_access_leaves_flags::<B>(d1, operand, bit_reset_spec(index, value));
}

/// No opcode names the flag register as an 8-bit operand, none pushes or
/// pops the stack pointer, and none but push and pop names the pair of
/// accumulator and flags. So every load, every 16-bit increment and
/// decrement, and every pop but the one into that pair leaves the flags
/// alone.
pub proof fn lemma_opcodes_that_leave_flags(op: u8)
    ensures
        instr_of(op) is Load || instr_of(op) is Inc16 || instr_of(op) is Dec16 || instr_of(op)
            is Load16Imm || (instr_of(op) is Pop16 && op != 0xF1) ==> leaves_flags(instr_of(op)),
        instr_of(op) matches Instr::Push16(reg) ==> reg != Reg16::SP,
        instr_of(op) matches Instr::Pop16(reg) ==> reg != Reg16::SP,
        instr_of(op) matches Instr::Add16(reg) ==> reg != Reg16::AF,
        instr_of(op) matches Instr::Alu(_, src) ==> src != Operand::Reg(Reg8::F),
        instr_of(op) matches Instr::Inc(operand) ==> operand != Operand::Reg(Reg8::F),
        instr_of(op) matches Instr::Dec(operand) ==> operand != Operand::Reg(Reg8::F),
        extended_of(op) matches Extended::Rotate(_, operand) ==> operand != Operand::Reg(Reg8::F),
        extended_of(op) matches Extended::TestBit(index, operand) ==> operand != Operand::Reg(
            Reg8::F,
        ) && index < 8,
        extended_of(op) matches Extended::SetBit(index, operand) ==> operand != Operand::Reg(
            Reg8::F,
        ) && index < 8,
        extended_of(op) matches Extended::ResetBit(index, operand) ==> operand != Operand::Reg(
            Reg8::F,
        ) && index < 8,
{
}

} // verus!
