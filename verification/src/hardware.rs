//! What the processor is connected to: the memory bus and the
//! interrupt-request line.

pub mod ram;

use vstd::pervasive::arbitrary;
use vstd::prelude::*;

verus! {

/// The sources that may request an interrupt, highest priority first.
#[derive(Clone, Copy, Debug, PartialEq, Eq, Structural)]
pub enum Interrupt {
    VBlank,
    LcdStat,
    Timer,
    Serial,
    Joypad,
}

impl Interrupt {
    /// The vector of each interrupt: they lie eight bytes apart from 0x0040 on.
    pub open spec fn vector_spec(self) -> u16 {
        match self {
            Interrupt::VBlank => 0x0040,
            Interrupt::LcdStat => 0x0048,
            Interrupt::Timer => 0x0050,
            Interrupt::Serial => 0x0058,
            Interrupt::Joypad => 0x0060,
        }
    }

    /// The fixed address control is transferred to when this interrupt is taken.
    #[verifier::when_used_as_spec(vector_spec)]
    pub fn vector(self) -> (addr: u16)
        ensures
            addr == self.vector_spec(),
    {
        match self {
            Interrupt::VBlank => 0x0040,
            Interrupt::LcdStat => 0x0048,
            Interrupt::Timer => 0x0050,
            Interrupt::Serial => 0x0058,
            Interrupt::Joypad => 0x0060,
        }
    }
}

/// The bus the processor reads and writes through, and the line on which
/// interrupts are requested.
///
/// What is behind the bus is not the processor's business. It may keep state
/// and every access may change it, so the processor makes each access its
/// instruction calls for, in order, and no other. All the processor relies
/// on is that the same access to the same state gives the same answer: the
/// bus has a model, and the four operations are functions of it.
///
/// A bus that is written where nothing is proved need not say what its model
/// is: it gives `Model` a type and implements the four operations.
pub trait Bus {
    /// The state of whatever is behind the bus.
    type Model;

    /// The state this bus is in.
    open spec fn model(&self) -> Self::Model {
        arbitrary()
    }

    /// The byte a read of `addr` returns in state `m`.
    open spec fn value_at(m: Self::Model, addr: u16) -> u8 {
        arbitrary()
    }

    /// The state a read of `addr` leaves behind.
    open spec fn after_read(m: Self::Model, addr: u16) -> Self::Model {
        arbitrary()
    }

    /// The state a write of `value` to `addr` leaves behind.
    open spec fn after_write(m: Self::Model, addr: u16, value: u8) -> Self::Model {
        arbitrary()
    }

    /// The state a cycle without an access leaves behind.
    open spec fn after_tick(m: Self::Model) -> Self::Model {
        arbitrary()
    }

    /// The interrupt that is requested in state `m`, if any: of several, the
    /// one to take first.
    open spec fn pending(m: Self::Model) -> Option<Interrupt> {
        arbitrary()
    }

    /// Reads the byte at `addr`. One machine cycle.
    fn read(&mut self, addr: u16) -> (value: u8)
        ensures
            value == Self::value_at(old(self).model(), addr),
            final(self).model() == Self::after_read(old(self).model(), addr),
    ;

    /// Writes `value` to `addr`. One machine cycle.
    fn write(&mut self, addr: u16, value: u8)
        ensures
            final(self).model() == Self::after_write(old(self).model(), addr, value),
    ;

    /// Lets one machine cycle pass without an access.
    fn tick(&mut self)
        ensures
            final(self).model() == Self::after_tick(old(self).model()),
    ;

    /// Looks at the interrupt-request line. The processor neither owns the
    /// request nor clears it, and looking takes no time.
    fn pending_interrupt(&self) -> (irq: Option<Interrupt>)
        ensures
            irq == Self::pending(self.model()),
    ;
}

} // verus!
