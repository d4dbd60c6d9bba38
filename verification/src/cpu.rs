//! The processor: its state, its operands, and what one step returns.

pub mod alu;
pub mod decode;
pub mod execute;
pub mod laws;
pub mod on_ram;
pub mod operand;
pub mod register_file;
pub mod semantics;
pub mod step;

use vstd::prelude::*;
use crate::cpu::register_file::{Reg8, RegisterFile};
use crate::hardware::Interrupt;

verus! {

/// Whether the processor is executing instructions.
#[derive(Clone, Copy, Debug, PartialEq, Eq, Structural)]
pub enum Power {
    /// Fetching and executing.
    Running,
    /// Waiting for an interrupt request.
    Halted,
    /// Low-power mode; only `Cpu::wake` leaves it.
    Stopped,
    /// Frozen by an undefined opcode; nothing leaves it.
    Locked,
}

/// A change of execution state that the caller of a step has to know about.
#[derive(Clone, Copy, Debug, PartialEq, Eq, Structural)]
pub enum Signal {
    /// The processor halted.
    Halt,
    /// The processor stopped.
    Stop,
    /// An undefined opcode locked the processor up.
    Undefined,
    /// Control went to the vector of this interrupt.
    Interrupt(Interrupt),
}

/// What one dispatch returns: the machine cycles it took, and a signal if the
/// execution state changed.
#[derive(Clone, Copy, Debug, PartialEq, Eq, Structural)]
pub struct Step {
    pub cycles: u8,
    pub signal: Option<Signal>,
}

/// A condition on the zero or the carry flag.
#[derive(Clone, Copy, Debug, PartialEq, Eq, Structural)]
pub enum Cond {
    /// Zero flag clear.
    NZ,
    /// Zero flag set.
    Z,
    /// Carry flag clear.
    NC,
    /// Carry flag set.
    C,
}

/// The ways an instruction names a byte in memory.
#[derive(Clone, Copy, Debug, PartialEq, Eq, Structural)]
pub enum Addr {
    /// At the address in BC.
    BC,
    /// At the address in DE.
    DE,
    /// At the address in HL.
    HL,
    /// At the address in HL, which is decremented by the access.
    HLD,
    /// At the address in HL, which is incremented by the access.
    HLI,
    /// At the 16-bit address that follows the opcode, low byte first.
    Direct,
    /// At 0xFF00 plus the byte that follows the opcode.
    ZeroPage,
    /// At 0xFF00 plus register C.
    ZeroPageC,
}

/// Where an 8-bit instruction finds or leaves its byte.
#[derive(Clone, Copy, Debug, PartialEq, Eq, Structural)]
pub enum Operand {
    /// A register.
    Reg(Reg8),
    /// The byte that follows the opcode. It can only be read: a write to it
    /// is dropped.
    Immediate8,
    /// A byte in memory.
    Mem(Addr),
}

/// The whole state of the processor.
#[derive(Clone, Copy, Debug, PartialEq, Eq, Structural)]
pub struct Cpu {
    pub regs: RegisterFile,
    pub power: Power,
    /// Interrupt master enable: whether a requested interrupt is taken.
    pub ime: bool,
    /// Set by the enable instruction; turns into `ime` once the instruction
    /// after it has completed.
    pub ime_pending: bool,
    /// Set by a halt that could not halt; the next opcode fetch then leaves
    /// the program counter where it is.
    pub halt_bug: bool,
}

impl Cond {
    /// Whether the condition holds of the given flags.
    pub open spec fn holds(self, z: bool, c: bool) -> bool {
        match self {
            Cond::NZ => !z,
            Cond::Z => z,
            Cond::NC => !c,
            Cond::C => c,
        }
    }
}

impl Cpu {
    /// A processor with the given registers and execution state, and no
    /// delayed enable or halt quirk outstanding.
    pub fn new(regs: RegisterFile, power: Power, ime: bool) -> (cpu: Cpu)
        ensures
            cpu == (Cpu { regs, power, ime, ime_pending: false, halt_bug: false }),
    {
        Cpu { regs, power, ime, ime_pending: false, halt_bug: false }
    }

    /// The external wake-up: a stopped processor runs again, any other is
    /// left as it is.
    pub fn wake(&mut self)
        ensures
            *final(self) == if old(self).power == Power::Stopped {
                Cpu { power: Power::Running, ..*old(self) }
            } else {
                *old(self)
            },
    {
        match self.power {
            Power::Stopped => {
                self.power = Power::Running;
            },
            _ => {},
        }
    }

    /// Tests a condition against the flags.
    pub fn check(&self, cond: Cond) -> (holds: bool)
        ensures
            holds == cond.holds(self.regs.flags.z, self.regs.flags.c),
    {
        match cond {
            Cond::NZ => !self.regs.flags.z,
            Cond::Z => self.regs.flags.z,
            Cond::NC => !self.regs.flags.c,
            Cond::C => self.regs.flags.c,
        }
    }
}

} // verus!
