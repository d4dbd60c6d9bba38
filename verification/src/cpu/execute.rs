//! The instruction handlers: each one performs the bus accesses of its
//! instruction in order, changes the registers, and returns the cycles it
//! took.

use vstd::prelude::*;
use crate::cpu::alu;
use crate::cpu::alu::{AluOp, RotOp};
use crate::cpu::decode::{Extended, Instr};
use crate::cpu::operand::{
    call_to, fetch16, fetch8, jump_to, next, pop, previous, push, return_from,
};
use crate::cpu::register_file::{split, Reg16};
use crate::cpu::semantics;
use crate::cpu::semantics::{machine, outcome};
use crate::cpu::{Cond, Cpu, Operand, Power, Signal, Step};
use crate::hardware::Bus;

verus! {

impl Step {
    /// A step of `cycles` machine cycles that signals nothing.
    pub fn done(cycles: u8) -> (step: Step)
        ensures
            step == (Step { cycles, signal: None }),
    {
        Step { cycles, signal: None }
    }

    /// A step of `cycles` machine cycles that signals a change of state.
    pub fn signalled(cycles: u8, signal: Signal) -> (step: Step)
        ensures
            step == (Step { cycles, signal: Some(signal) }),
    {
        Step { cycles, signal: Some(signal) }
    }
}

impl Cpu {
    /// Copies a byte from `src` to `dst`. No flag changes.
    pub fn load<B: Bus>(&mut self, bus: &mut B, dst: Operand, src: Operand) -> (step: Step)
        ensures
            outcome(*final(self), *final(bus), step) == semantics::execute::<B>(
                machine(*old(self), *old(bus)),
                Instr::Load(dst, src),
            ),
    {
        proof {
            reveal(semantics::compute);
        }
        let (value, read_cost) = src.read(&mut self.regs, bus);
        let write_cost = dst.write(&mut self.regs, bus, value);
        Step::done(1 + read_cost + write_cost)
    }

    /// Combines the accumulator with an operand.
    pub fn alu<B: Bus>(&mut self, bus: &mut B, op: AluOp, src: Operand) -> (step: Step)
        ensures
            outcome(*final(self), *final(bus), step) == semantics::execute::<B>(
                machine(*old(self), *old(bus)),
                Instr::Alu(op, src),
            ),
    {
        proof {
            reveal(semantics::compute);
        }
        let (value, read_cost) = src.read(&mut self.regs, bus);
        let (a, flags) = alu::alu(op, self.regs.a, value, self.regs.flags.c);
        self.regs.a = a;
        self.regs.flags = flags;
        Step::done(1 + read_cost)
    }

    /// Adds one to an operand. The carry flag is left alone.
    pub fn inc<B: Bus>(&mut self, bus: &mut B, operand: Operand) -> (step: Step)
        ensures
            outcome(*final(self), *final(bus), step) == semantics::execute::<B>(
                machine(*old(self), *old(bus)),
                Instr::Inc(operand),
            ),
    {
        proof {
            reveal(semantics::compute);
        }
        let (value, read_cost) = operand.read(&mut self.regs, bus);
        let (result, flags) = alu::inc8(value, self.regs.flags);
        let write_cost = operand.write(&mut self.regs, bus, result);
        self.regs.flags = flags;
        Step::done(1 + read_cost + write_cost)
    }

    /// Takes one from an operand. The carry flag is left alone.
    pub fn dec<B: Bus>(&mut self, bus: &mut B, operand: Operand) -> (step: Step)
        ensures
            outcome(*final(self), *final(bus), step) == semantics::execute::<B>(
                machine(*old(self), *old(bus)),
                Instr::Dec(operand),
            ),
    {
        proof {
            reveal(semantics::compute);
        }
        let (value, read_cost) = operand.read(&mut self.regs, bus);
        let (result, flags) = alu::dec8(value, self.regs.flags);
        let write_cost = operand.write(&mut self.regs, bus, result);
        self.regs.flags = flags;
        Step::done(1 + read_cost + write_cost)
    }

    /// Rotates the accumulator; Z, N and H are cleared.
    pub fn rotate_a<B: Bus>(&mut self, bus: &mut B, op: RotOp) -> (step: Step)
        ensures
            outcome(*final(self), *final(bus), step) == semantics::execute::<B>(
                machine(*old(self), *old(bus)),
                Instr::RotateA(op),
            ),
    {
        proof {
            reveal(semantics::compute);
        }
        let (a, flags) = alu::rotate_a(op, self.regs.a, self.regs.flags.c);
        self.regs.a = a;
        self.regs.flags = flags;
        Step::done(1)
    }

    /// Adjusts the accumulator to two decimal digits.
    pub fn daa<B: Bus>(&mut self, bus: &mut B) -> (step: Step)
        ensures
            outcome(*final(self), *final(bus), step) == semantics::execute::<B>(
                machine(*old(self), *old(bus)),
                Instr::Daa,
            ),
    {
        proof {
            reveal(semantics::compute);
        }
        let (a, flags) = alu::daa(self.regs.a, self.regs.flags);
        self.regs.a = a;
        self.regs.flags = flags;
        Step::done(1)
    }

    /// Inverts the accumulator.
    pub fn cpl<B: Bus>(&mut self, bus: &mut B) -> (step: Step)
        ensures
            outcome(*final(self), *final(bus), step) == semantics::execute::<B>(
                machine(*old(self), *old(bus)),
                Instr::Cpl,
            ),
    {
        proof {
            reveal(semantics::compute);
        }
        let (a, flags) = alu::cpl(self.regs.a, self.regs.flags);
        self.regs.a = a;
        self.regs.flags = flags;
        Step::done(1)
    }

    /// Inverts the carry flag.
    pub fn ccf<B: Bus>(&mut self, bus: &mut B) -> (step: Step)
        ensures
            outcome(*final(self), *final(bus), step) == semantics::execute::<B>(
                machine(*old(self), *old(bus)),
                Instr::Ccf,
            ),
    {
        proof {
            reveal(semantics::compute);
        }
        self.regs.flags = alu::ccf(self.regs.flags);
        Step::done(1)
    }

    /// Sets the carry flag.
    pub fn scf<B: Bus>(&mut self, bus: &mut B) -> (step: Step)
        ensures
            outcome(*final(self), *final(bus), step) == semantics::execute::<B>(
                machine(*old(self), *old(bus)),
                Instr::Scf,
            ),
    {
        proof {
            reveal(semantics::compute);
        }
        self.regs.flags = alu::scf(self.regs.flags);
        Step::done(1)
    }

    /// Does nothing.
    pub fn nop<B: Bus>(&mut self, bus: &mut B) -> (step: Step)
        ensures
            outcome(*final(self), *final(bus), step) == semantics::execute::<B>(
                machine(*old(self), *old(bus)),
                Instr::Nop,
            ),
    {
        proof {
            reveal(semantics::compute);
        }
        Step::done(1)
    }

    /// Jumps to the address that follows the opcode.
    pub fn jp<B: Bus>(&mut self, bus: &mut B) -> (step: Step)
        ensures
            outcome(*final(self), *final(bus), step) == semantics::execute::<B>(
                machine(*old(self), *old(bus)),
                Instr::Jp,
            ),
    {
        proof {
            reveal(semantics::compute);
        }
        let target = fetch16(&mut self.regs, bus);
        jump_to(&mut self.regs, bus, target);
        Step::done(4)
    }

    /// Jumps to the address in HL.
    pub fn jp_hl<B: Bus>(&mut self, bus: &mut B) -> (step: Step)
        ensures
            outcome(*final(self), *final(bus), step) == semantics::execute::<B>(
                machine(*old(self), *old(bus)),
                Instr::JpHl,
            ),
    {
        proof {
            reveal(semantics::compute);
        }
        self.regs.pc = self.regs.read16(Reg16::HL);
        Step::done(1)
    }

    /// Jumps by the signed displacement that follows the opcode.
    pub fn jr<B: Bus>(&mut self, bus: &mut B) -> (step: Step)
        ensures
            outcome(*final(self), *final(bus), step) == semantics::execute::<B>(
                machine(*old(self), *old(bus)),
                Instr::Jr,
            ),
    {
        proof {
            reveal(semantics::compute);
        }
        let displacement = fetch8(&mut self.regs, bus);
        let target = alu::offset(self.regs.pc, displacement);
        jump_to(&mut self.regs, bus, target);
        Step::done(3)
    }

    /// Calls the address that follows the opcode.
    pub fn call<B: Bus>(&mut self, bus: &mut B) -> (step: Step)
        ensures
            outcome(*final(self), *final(bus), step) == semantics::execute::<B>(
                machine(*old(self), *old(bus)),
                Instr::Call,
            ),
    {
        proof {
            reveal(semantics::compute);
        }
        let target = fetch16(&mut self.regs, bus);
        call_to(&mut self.regs, bus, target);
        Step::done(6)
    }

    /// Returns to the address on the stack.
    pub fn ret<B: Bus>(&mut self, bus: &mut B) -> (step: Step)
        ensures
            outcome(*final(self), *final(bus), step) == semantics::execute::<B>(
                machine(*old(self), *old(bus)),
                Instr::Ret,
            ),
    {
        proof {
            reveal(semantics::compute);
        }
        return_from(&mut self.regs, bus);
        Step::done(4)
    }

    /// Returns to the address on the stack and enables interrupts at once.
    pub fn reti<B: Bus>(&mut self, bus: &mut B) -> (step: Step)
        ensures
            outcome(*final(self), *final(bus), step) == semantics::execute::<B>(
                machine(*old(self), *old(bus)),
                Instr::Reti,
            ),
    {
        proof {
            reveal(semantics::compute);
        }
        return_from(&mut self.regs, bus);
        self.ime = true;
        Step::done(4)
    }

    /// Jumps if the condition holds: four cycles if it does, three if not.
    pub fn jp_cc<B: Bus>(&mut self, bus: &mut B, cond: Cond) -> (step: Step)
        ensures
            outcome(*final(self), *final(bus), step) == semantics::execute::<B>(
                machine(*old(self), *old(bus)),
                Instr::JpCc(cond),
            ),
    {
        proof {
            reveal(semantics::compute);
        }
        let target = fetch16(&mut self.regs, bus);
        if self.check(cond) {
            jump_to(&mut self.regs, bus, target);
            Step::done(4)
        } else {
            Step::done(3)
        }
    }

    /// Jumps by a displacement if the condition holds: three cycles if it
    /// does, two if not.
    pub fn jr_cc<B: Bus>(&mut self, bus: &mut B, cond: Cond) -> (step: Step)
        ensures
            outcome(*final(self), *final(bus), step) == semantics::execute::<B>(
                machine(*old(self), *old(bus)),
                Instr::JrCc(cond),
            ),
    {
        proof {
            reveal(semantics::compute);
        }
        let displacement = fetch8(&mut self.regs, bus);
        if self.check(cond) {
            let target = alu::offset(self.regs.pc, displacement);
            jump_to(&mut self.regs, bus, target);
            Step::done(3)
        } else {
            Step::done(2)
        }
    }

    /// Calls if the condition holds: six cycles if it does, three if not.
    pub fn call_cc<B: Bus>(&mut self, bus: &mut B, cond: Cond) -> (step: Step)
        ensures
            outcome(*final(self), *final(bus), step) == semantics::execute::<B>(
                machine(*old(self), *old(bus)),
                Instr::CallCc(cond),
            ),
    {
        proof {
            reveal(semantics::compute);
        }
        let target = fetch16(&mut self.regs, bus);
        if self.check(cond) {
            call_to(&mut self.regs, bus, target);
            Step::done(6)
        } else {
            Step::done(3)
        }
    }

    /// Returns if the condition holds: five cycles if it does, two if not.
    pub fn ret_cc<B: Bus>(&mut self, bus: &mut B, cond: Cond) -> (step: Step)
        ensures
            outcome(*final(self), *final(bus), step) == semantics::execute::<B>(
                machine(*old(self), *old(bus)),
                Instr::RetCc(cond),
            ),
    {
        proof {
            reveal(semantics::compute);
        }
        bus.tick();
        if self.check(cond) {
            return_from(&mut self.regs, bus);
            Step::done(5)
        } else {
            Step::done(2)
        }
    }

    /// Calls a fixed address in the low page.
    pub fn rst<B: Bus>(&mut self, bus: &mut B, target: u8) -> (step: Step)
        ensures
            outcome(*final(self), *final(bus), step) == semantics::execute::<B>(
                machine(*old(self), *old(bus)),
                Instr::Rst(target),
            ),
    {
        proof {
            reveal(semantics::compute);
        }
        call_to(&mut self.regs, bus, target as u16);
        Step::done(4)
    }

    /// Halts, unless interrupts are disabled and a request is already there.
    pub fn halt<B: Bus>(&mut self, bus: &mut B) -> (step: Step)
        ensures
            outcome(*final(self), *final(bus), step) == semantics::execute::<B>(
                machine(*old(self), *old(bus)),
                Instr::Halt,
            ),
    {
        proof {
            reveal(semantics::compute);
        }
        if !self.ime && bus.pending_interrupt().is_some() {
            self.halt_bug = true;
            Step::done(1)
        } else {
            self.power = Power::Halted;
            Step::signalled(1, Signal::Halt)
        }
    }

    /// Stops the processor.
    pub fn stop<B: Bus>(&mut self, bus: &mut B) -> (step: Step)
        ensures
            outcome(*final(self), *final(bus), step) == semantics::execute::<B>(
                machine(*old(self), *old(bus)),
                Instr::Stop,
            ),
    {
        proof {
            reveal(semantics::compute);
        }
        self.power = Power::Stopped;
        Step::signalled(1, Signal::Stop)
    }

    /// Disables interrupts at once.
    pub fn di<B: Bus>(&mut self, bus: &mut B) -> (step: Step)
        ensures
            outcome(*final(self), *final(bus), step) == semantics::execute::<B>(
                machine(*old(self), *old(bus)),
                Instr::Di,
            ),
    {
        proof {
            reveal(semantics::compute);
        }
        self.ime = false;
        self.ime_pending = false;
        Step::done(1)
    }

    /// Enables interrupts once the next instruction has completed.
    pub fn ei<B: Bus>(&mut self, bus: &mut B) -> (step: Step)
        ensures
            outcome(*final(self), *final(bus), step) == semantics::execute::<B>(
                machine(*old(self), *old(bus)),
                Instr::Ei,
            ),
    {
        proof {
            reveal(semantics::compute);
        }
        self.ime_pending = true;
        Step::done(1)
    }

    /// Locks the processor up. The opcode is kept for the caller's sake and
    /// changes nothing.
    pub fn undefined<B: Bus>(&mut self, bus: &mut B, op: u8) -> (step: Step)
        ensures
            outcome(*final(self), *final(bus), step) == semantics::execute::<B>(
                machine(*old(self), *old(bus)),
                Instr::Undefined(op),
            ),
    {
        proof {
            reveal(semantics::compute);
        }
        self.power = Power::Locked;
        Step::signalled(1, Signal::Undefined)
    }

    /// Loads a 16-bit register with the word that follows the opcode.
    pub fn load16_imm<B: Bus>(&mut self, bus: &mut B, reg: Reg16) -> (step: Step)
        ensures
            outcome(*final(self), *final(bus), step) == semantics::execute::<B>(
                machine(*old(self), *old(bus)),
                Instr::Load16Imm(reg),
            ),
    {
        proof {
            reveal(semantics::compute);
        }
        let value = fetch16(&mut self.regs, bus);
        self.regs.write16(reg, value);
        Step::done(3)
    }

    /// Stores the stack pointer at the address that follows the opcode, low
    /// byte first.
    pub fn load16_nn_sp<B: Bus>(&mut self, bus: &mut B) -> (step: Step)
        ensures
            outcome(*final(self), *final(bus), step) == semantics::execute::<B>(
                machine(*old(self), *old(bus)),
                Instr::Load16NnSp,
            ),
    {
        proof {
            reveal(semantics::compute);
        }
        let at = fetch16(&mut self.regs, bus);
        let (hi, lo) = split(self.regs.sp);
        bus.write(at, lo);
        bus.write(next(at), hi);
        Step::done(5)
    }

    /// Copies HL to the stack pointer.
    pub fn load16_sp_hl<B: Bus>(&mut self, bus: &mut B) -> (step: Step)
        ensures
            outcome(*final(self), *final(bus), step) == semantics::execute::<B>(
                machine(*old(self), *old(bus)),
                Instr::Load16SpHl,
            ),
    {
        proof {
            reveal(semantics::compute);
        }
        bus.tick();
        self.regs.sp = self.regs.read16(Reg16::HL);
        Step::done(2)
    }

    /// Loads HL with the stack pointer moved by the signed displacement that
    /// follows the opcode.
    pub fn load16_hl_sp_e<B: Bus>(&mut self, bus: &mut B) -> (step: Step)
        ensures
            outcome(*final(self), *final(bus), step) == semantics::execute::<B>(
                machine(*old(self), *old(bus)),
                Instr::Load16HlSpE,
            ),
    {
        proof {
            reveal(semantics::compute);
        }
        let displacement = fetch8(&mut self.regs, bus);
        bus.tick();
        let (value, flags) = alu::add_sp(self.regs.sp, displacement);
        self.regs.write16(Reg16::HL, value);
        self.regs.flags = flags;
        Step::done(3)
    }

    /// Pushes a 16-bit register.
    pub fn push16<B: Bus>(&mut self, bus: &mut B, reg: Reg16) -> (step: Step)
        ensures
            outcome(*final(self), *final(bus), step) == semantics::execute::<B>(
                machine(*old(self), *old(bus)),
                Instr::Push16(reg),
            ),
    {
        proof {
            reveal(semantics::compute);
        }
        bus.tick();
        let value = self.regs.read16(reg);
        push(&mut self.regs, bus, value);
        Step::done(4)
    }

    /// Pops a 16-bit register. Popped into AF, the low nibble is lost.
    pub fn pop16<B: Bus>(&mut self, bus: &mut B, reg: Reg16) -> (step: Step)
        ensures
            outcome(*final(self), *final(bus), step) == semantics::execute::<B>(
                machine(*old(self), *old(bus)),
                Instr::Pop16(reg),
            ),
    {
        proof {
            reveal(semantics::compute);
        }
        let value = pop(&mut self.regs, bus);
        self.regs.write16(reg, value);
        Step::done(3)
    }

    /// Adds a 16-bit register to HL.
    pub fn add16<B: Bus>(&mut self, bus: &mut B, reg: Reg16) -> (step: Step)
        ensures
            outcome(*final(self), *final(bus), step) == semantics::execute::<B>(
                machine(*old(self), *old(bus)),
                Instr::Add16(reg),
            ),
    {
        proof {
            reveal(semantics::compute);
        }
        let hl = self.regs.read16(Reg16::HL);
        let (value, flags) = alu::add16(hl, self.regs.read16(reg), self.regs.flags);
        bus.tick();
        self.regs.write16(Reg16::HL, value);
        self.regs.flags = flags;
        Step::done(2)
    }

    /// Moves the stack pointer by the signed displacement that follows the
    /// opcode.
    pub fn add16_sp_e<B: Bus>(&mut self, bus: &mut B) -> (step: Step)
        ensures
            outcome(*final(self), *final(bus), step) == semantics::execute::<B>(
                machine(*old(self), *old(bus)),
                Instr::Add16SpE,
            ),
    {
        proof {
            reveal(semantics::compute);
        }
        let displacement = fetch8(&mut self.regs, bus);
        bus.tick();
        bus.tick();
        let (sp, flags) = alu::add_sp(self.regs.sp, displacement);
        self.regs.sp = sp;
        self.regs.flags = flags;
        Step::done(4)
    }

    /// Adds one to a 16-bit register. No flag changes.
    pub fn inc16<B: Bus>(&mut self, bus: &mut B, reg: Reg16) -> (step: Step)
        ensures
            outcome(*final(self), *final(bus), step) == semantics::execute::<B>(
                machine(*old(self), *old(bus)),
                Instr::Inc16(reg),
            ),
    {
        proof {
            reveal(semantics::compute);
        }
        let value = self.regs.read16(reg);
        bus.tick();
        self.regs.write16(reg, next(value));
        Step::done(2)
    }

    /// Takes one from a 16-bit register. No flag changes.
    pub fn dec16<B: Bus>(&mut self, bus: &mut B, reg: Reg16) -> (step: Step)
        ensures
            outcome(*final(self), *final(bus), step) == semantics::execute::<B>(
                machine(*old(self), *old(bus)),
                Instr::Dec16(reg),
            ),
    {
        proof {
            reveal(semantics::compute);
        }
        let value = self.regs.read16(reg);
        bus.tick();
        self.regs.write16(reg, previous(value));
        Step::done(2)
    }

    /// Rotates or shifts an operand.
    pub fn rotate<B: Bus>(&mut self, bus: &mut B, op: RotOp, operand: Operand) -> (step: Step)
        ensures
            outcome(*final(self), *final(bus), step) == semantics::execute_extended::<B>(
                machine(*old(self), *old(bus)),
                Extended::Rotate(op, operand),
            ),
    {
        proof {
            reveal(semantics::compute_extended);
        }
        let (value, read_cost) = operand.read(&mut self.regs, bus);
        let (result, flags) = alu::rotate(op, value, self.regs.flags.c);
        let write_cost = operand.write(&mut self.regs, bus, result);
        self.regs.flags = flags;
        Step::done(1 + read_cost + write_cost)
    }

    /// Tests a bit of an operand. Nothing is written.
    pub fn bit<B: Bus>(&mut self, bus: &mut B, index: u8, operand: Operand) -> (step: Step)
        ensures
            outcome(*final(self), *final(bus), step) == semantics::execute_extended::<B>(
                machine(*old(self), *old(bus)),
                Extended::TestBit(index, operand),
            ),
    {
        proof {
            reveal(semantics::compute_extended);
        }
        let (value, read_cost) = operand.read(&mut self.regs, bus);
        self.regs.flags = alu::bit_test(index, value, self.regs.flags);
        Step::done(1 + read_cost)
    }

    /// Sets a bit of an operand. No flag changes.
    pub fn set<B: Bus>(&mut self, bus: &mut B, index: u8, operand: Operand) -> (step: Step)
        ensures
            outcome(*final(self), *final(bus), step) == semantics::execute_extended::<B>(
                machine(*old(self), *old(bus)),
                Extended::SetBit(index, operand),
            ),
    {
        proof {
            reveal(semantics::compute_extended);
        }
        let (value, read_cost) = operand.read(&mut self.regs, bus);
        let write_cost = operand.write(&mut self.regs, bus, alu::bit_set(index, value));
        Step::done(1 + read_cost + write_cost)
    }

    /// Clears a bit of an operand. No flag changes.
    pub fn res<B: Bus>(&mut self, bus: &mut B, index: u8, operand: Operand) -> (step: Step)
        ensures
            outcome(*final(self), *final(bus), step) == semantics::execute_extended::<B>(
                machine(*old(self), *old(bus)),
                Extended::ResetBit(index, operand),
            ),
    {
        proof {
            reveal(semantics::compute_extended);
        }
        let (value, read_cost) = operand.read(&mut self.regs, bus);
        let write_cost = operand.write(&mut self.regs, bus, alu::bit_reset(index, value));
        Step::done(1 + read_cost + write_cost)
    }

    /// Executes an instruction of the extended opcode space.
    pub fn execute_extended<B: Bus>(&mut self, bus: &mut B, instr: Extended) -> (step: Step)
        ensures
            outcome(*final(self), *final(bus), step) == semantics::execute_extended::<B>(
                machine(*old(self), *old(bus)),
                instr,
            ),
    {
        match instr {
            Extended::Rotate(op, operand) => self.rotate(bus, op, operand),
            Extended::TestBit(index, operand) => self.bit(bus, index, operand),
            Extended::SetBit(index, operand) => self.set(bus, index, operand),
            Extended::ResetBit(index, operand) => self.res(bus, index, operand),
        }
    }
}

} // verus!
