//! One step of the processor: an interrupt is taken, or an instruction is
//! fetched and executed, or a cycle passes while the processor sleeps.

use vstd::prelude::*;
use crate::cpu::operand::{next, push};
use crate::cpu::semantics;
use crate::cpu::semantics::{machine, outcome};
use crate::cpu::{Cpu, Power, Signal, Step};
use crate::hardware::{Bus, Interrupt};

verus! {

impl Cpu {
    /// Takes an interrupt: disables interrupts and calls the vector. Five
    /// cycles.
    pub fn interrupt<B: Bus>(&mut self, bus: &mut B, irq: Interrupt) -> (step: Step)
        ensures
            outcome(*final(self), *final(bus), step) == semantics::interrupt::<B>(
                machine(*old(self), *old(bus)),
                irq,
            ),
    {
        self.ime = false;
        self.ime_pending = false;
        self.halt_bug = false;
        bus.tick();
        bus.tick();
        let pc = self.regs.pc;
        push(&mut self.regs, bus, pc);
        bus.tick();
        self.regs.pc = irq.vector();
        Step::signalled(5, Signal::Interrupt(irq))
    }

    /// Fetches the opcode at the program counter and executes the
    /// instruction it stands for.
    pub fn fetch_execute<B: Bus>(&mut self, bus: &mut B) -> (step: Step)
        ensures
            outcome(*final(self), *final(bus), step) == semantics::fetch_execute::<B>(
                machine(*old(self), *old(bus)),
            ),
    {
        let armed = self.ime_pending;
        let op = bus.read(self.regs.pc);
        if self.halt_bug {
            self.halt_bug = false;
        } else {
            self.regs.pc = next(self.regs.pc);
        }
        let step = self.decode_exec_fetch(bus, op);
        if armed && self.ime_pending {
            self.ime = true;
            self.ime_pending = false;
        }
        step
    }

    /// Lets one cycle pass.
    pub fn idle<B: Bus>(&mut self, bus: &mut B) -> (step: Step)
        ensures
            outcome(*final(self), *final(bus), step) == semantics::idle::<B>(
                machine(*old(self), *old(bus)),
            ),
    {
        bus.tick();
        Step::done(1)
    }

    /// Executes one step: exactly one instruction, or the call to an
    /// interrupt vector, or one idle cycle of a processor that is halted,
    /// stopped or locked up. Returns the cycles that took, which is the
    /// number of bus accesses made, and a signal if the execution state
    /// changed.
    pub fn step<B: Bus>(&mut self, bus: &mut B) -> (step: Step)
        ensures
            outcome(*final(self), *final(bus), step) == semantics::step::<B>(
                machine(*old(self), *old(bus)),
            ),
    {
        let requested = bus.pending_interrupt();
        match self.power {
            Power::Stopped | Power::Locked => {
                return self.idle(bus);
            },
            Power::Halted => {
                if requested.is_none() {
                    return self.idle(bus);
                }
                self.power = Power::Running;
            },
            Power::Running => {},
        }
        match requested {
            Some(irq) => {
                if self.ime {
                    self.interrupt(bus, irq)
                } else {
                    self.fetch_execute(bus)
                }
            },
            None => self.fetch_execute(bus),
        }
    }
}

} // verus!
