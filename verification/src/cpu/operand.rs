//! Access to operands: how a byte is read from or written to a register, the
//! instruction stream or memory, and how the stack is pushed and popped.
//! Every bus access is made here, one call per machine cycle.

use vstd::prelude::*;
use crate::cpu::register_file::{join, split, Reg16, RegisterFile};
use crate::cpu::semantics;
use crate::cpu::semantics::{data, wrap16};
use crate::cpu::{Addr, Operand};
use crate::hardware::Bus;

verus! {

/// The address after `addr`; the one after the last is the first.
pub fn next(addr: u16) -> (after: u16)
    ensures
        after == wrap16(addr + 1),
{
    addr.wrapping_add(1)
}

/// The address before `addr`; the one before the first is the last.
pub fn previous(addr: u16) -> (before: u16)
    ensures
        before == wrap16(addr - 1),
{
    addr.wrapping_sub(1)
}

/// Reads the byte at the program counter and moves the program counter past
/// it.
pub fn fetch8<B: Bus>(regs: &mut RegisterFile, bus: &mut B) -> (value: u8)
    ensures
        (value, data(*final(regs), *final(bus))) == semantics::fetch8::<B>(
            data(*old(regs), *old(bus)),
        ),
{
    let value = bus.read(regs.pc);
    regs.pc = next(regs.pc);
    value
}

/// Reads the two bytes at the program counter, low byte first.
pub fn fetch16<B: Bus>(regs: &mut RegisterFile, bus: &mut B) -> (value: u16)
    ensures
        (value, data(*final(regs), *final(bus))) == semantics::fetch16::<B>(
            data(*old(regs), *old(bus)),
        ),
{
    let lo = fetch8(regs, bus);
    let hi = fetch8(regs, bus);
    join(hi, lo)
}

/// Pushes a word onto the stack, high byte first.
pub fn push<B: Bus>(regs: &mut RegisterFile, bus: &mut B, value: u16)
    ensures
        data(*final(regs), *final(bus)) == semantics::push::<B>(
            data(*old(regs), *old(bus)),
            value,
        ),
{
    let (hi, lo) = split(value);
    regs.sp = previous(regs.sp);
    bus.write(regs.sp, hi);
    regs.sp = previous(regs.sp);
    bus.write(regs.sp, lo);
    proof {
        lemma_previous_twice(old(regs).sp);
    }
}

/// Pops a word off the stack, low byte first.
pub fn pop<B: Bus>(regs: &mut RegisterFile, bus: &mut B) -> (value: u16)
    ensures
        (value, data(*final(regs), *final(bus))) == semantics::pop::<B>(
            data(*old(regs), *old(bus)),
        ),
{
    let lo = bus.read(regs.sp);
    regs.sp = next(regs.sp);
    let hi = bus.read(regs.sp);
    regs.sp = next(regs.sp);
    proof {
        lemma_next_twice(old(regs).sp);
    }
    join(hi, lo)
}

proof fn lemma_previous_twice(addr: u16)
    ensures
        wrap16(wrap16(addr - 1) - 1) == wrap16(addr - 2),
{
}

proof fn lemma_next_twice(addr: u16)
    ensures
        wrap16(wrap16(addr + 1) + 1) == wrap16(addr + 2),
{
}

impl Addr {
    /// Finds the address of a memory operand, and returns it with the cycles
    /// that took.
    pub fn resolve<B: Bus>(self, regs: &mut RegisterFile, bus: &mut B) -> (found: (u16, u8))
        ensures
            (found.0, data(*final(regs), *final(bus))) == semantics::resolve::<B>(
                data(*old(regs), *old(bus)),
                self,
            ),
            found.1 == semantics::resolve_cost(self),
    {
        match self {
            Addr::BC => (regs.read16(Reg16::BC), 0),
            Addr::DE => (regs.read16(Reg16::DE), 0),
            Addr::HL => (regs.read16(Reg16::HL), 0),
            Addr::HLD => {
                let hl = regs.read16(Reg16::HL);
                regs.write16(Reg16::HL, previous(hl));
                (hl, 0)
            },
            Addr::HLI => {
                let hl = regs.read16(Reg16::HL);
                regs.write16(Reg16::HL, next(hl));
                (hl, 0)
            },
            Addr::Direct => (fetch16(regs, bus), 2),
            Addr::ZeroPage => {
                let offset = fetch8(regs, bus);
                (join(0xFF, offset), 1)
            },
            Addr::ZeroPageC => (join(0xFF, regs.c), 0),
        }
    }
}

impl Operand {
    /// Reads the operand, and returns its byte with the cycles that took.
    pub fn read<B: Bus>(self, regs: &mut RegisterFile, bus: &mut B) -> (got: (u8, u8))
        ensures
            (got.0, data(*final(regs), *final(bus))) == semantics::read_operand::<B>(
                data(*old(regs), *old(bus)),
                self,
            ),
            got.1 == semantics::read_cost(self),
    {
        match self {
            Operand::Reg(reg) => (regs.read8(reg), 0),
            Operand::Immediate8 => (fetch8(regs, bus), 1),
            Operand::Mem(addr) => {
                let (at, cost) = addr.resolve(regs, bus);
                (bus.read(at), cost + 1)
            },
        }
    }

    /// Writes the operand, and returns the cycles that took. A write to the
    /// immediate byte is dropped.
    pub fn write<B: Bus>(self, regs: &mut RegisterFile, bus: &mut B, value: u8) -> (cost: u8)
        ensures
            data(*final(regs), *final(bus)) == semantics::write_operand::<B>(
                data(*old(regs), *old(bus)),
                self,
                value,
            ),
            cost == semantics::write_cost(self),
    {
        match self {
            Operand::Reg(reg) => {
                regs.write8(reg, value);
                0
            },
            Operand::Immediate8 => 0,
            Operand::Mem(addr) => {
                let (at, cost) = addr.resolve(regs, bus);
                bus.write(at, value);
                cost + 1
            },
        }
    }
}

/// Spends the cycle of a taken jump and moves the program counter.
pub fn jump_to<B: Bus>(regs: &mut RegisterFile, bus: &mut B, target: u16)
    ensures
        data(*final(regs), *final(bus)) == semantics::jump_to::<B>(
            data(*old(regs), *old(bus)),
            target,
        ),
{
    bus.tick();
    regs.pc = target;
}

/// Spends the cycle of a taken call, pushes the program counter and moves it.
pub fn call_to<B: Bus>(regs: &mut RegisterFile, bus: &mut B, target: u16)
    ensures
        data(*final(regs), *final(bus)) == semantics::call_to::<B>(
            data(*old(regs), *old(bus)),
            target,
        ),
{
    bus.tick();
    let pc = regs.pc;
    push(regs, bus, pc);
    regs.pc = target;
}

/// Pops the program counter and spends the cycle that follows.
pub fn return_from<B: Bus>(regs: &mut RegisterFile, bus: &mut B)
    ensures
        data(*final(regs), *final(bus)) == semantics::return_from::<B>(
            data(*old(regs), *old(bus)),
        ),
{
    let target = pop(regs, bus);
    bus.tick();
    regs.pc = target;
}

} // verus!
