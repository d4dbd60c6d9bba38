//! The simplest thing that can sit behind the bus: 64 KiB of plain memory,
//! an interrupt-request line that the owner sets by hand, and a count of the
//! accesses made.

use vstd::prelude::*;
use crate::hardware::{Bus, Interrupt};

verus! {

/// The byte an address without memory behind it reads as.
pub const OPEN_BUS: u8 = 0xFF;

/// Plain memory without side effects.
pub struct Ram {
    bytes: Vec<u8>,
    /// The interrupt that is requested, if any.
    pub requested: Option<Interrupt>,
    /// The number of reads, writes and idle ticks so far, counted around
    /// `u64::MAX`.
    pub accesses: u64,
    elapsed: Ghost<nat>,
}

/// What a `Ram` is, as a value.
pub struct RamModel {
    pub bytes: Seq<u8>,
    pub requested: Option<Interrupt>,
    pub accesses: u64,
    pub elapsed: nat,
}

impl RamModel {
    /// The byte at `addr`.
    pub open spec fn at(self, addr: u16) -> u8 {
        if addr < self.bytes.len() {
            self.bytes[addr as int]
        } else {
            OPEN_BUS
        }
    }

    /// The model after one more access.
    pub open spec fn counted(self) -> RamModel {
        RamModel {
            accesses: if self.accesses == u64::MAX {
                0
            } else {
                (self.accesses + 1) as u64
            },
            elapsed: self.elapsed + 1,
            ..self
        }
    }

    /// The model with `value` stored at `addr`.
    pub open spec fn stored(self, addr: u16, value: u8) -> RamModel {
        if addr < self.bytes.len() {
            RamModel { bytes: self.bytes.update(addr as int, value), ..self }
        } else {
            self
        }
    }
}

impl View for Ram {
    type V = RamModel;

    closed spec fn view(&self) -> RamModel {
        RamModel {
            bytes: self.bytes@,
            requested: self.requested,
            accesses: self.accesses,
            elapsed: self.elapsed@,
        }
    }
}

impl Ram {
    /// 64 KiB of zeroes, no interrupt requested, no access made.
    pub fn new() -> (ram: Ram)
        ensures
            ram@.bytes.len() == 0x1_0000,
            forall|addr: u16| ram@.at(addr) == 0,
            ram@.requested is None,
            ram@.accesses == 0,
            ram@.elapsed == 0,
    {
        let mut bytes: Vec<u8> = Vec::new();
        let mut n: usize = 0;
        while n < 0x1_0000
            invariant
                n <= 0x1_0000,
                bytes@.len() == n,
                forall|i: int| 0 <= i < n ==> bytes@[i] == 0,
            decreases 0x1_0000 - n,
        {
            bytes.push(0);
            n = n + 1;
        }
        Ram { bytes, requested: None, accesses: 0, elapsed: Ghost(0) }
    }

    /// The byte at `addr`, without an access on the bus.
    pub fn peek(&self, addr: u16) -> (value: u8)
        ensures
            value == self@.at(addr),
    {
        let at = addr as usize;
        if at < self.bytes.len() {
            self.bytes[at]
        } else {
            OPEN_BUS
        }
    }

    /// Stores `value` at `addr`, without an access on the bus.
    pub fn poke(&mut self, addr: u16, value: u8)
        ensures
            final(self)@ == old(self)@.stored(addr, value),
    {
        let at = addr as usize;
        if at < self.bytes.len() {
            self.bytes.set(at, value);
        }
    }

    /// Stores `program` from `addr` on, without an access on the bus. What
    /// would go past the end of memory is dropped.
    pub fn load(&mut self, addr: u16, program: &[u8])
        ensures
            final(self)@.bytes.len() == old(self)@.bytes.len(),
            final(self)@.requested == old(self)@.requested,
            final(self)@.accesses == old(self)@.accesses,
            final(self)@.elapsed == old(self)@.elapsed,
            forall|i: int|
                0 <= i < old(self)@.bytes.len() ==> final(self)@.bytes[i] == if addr <= i < addr
                    + program@.len() {
                    program@[i - addr]
                } else {
                    old(self)@.bytes[i]
                },
    {
        let mut n: usize = 0;
        let start = addr as usize;
        let room = if start < self.bytes.len() {
            self.bytes.len() - start
        } else {
            0
        };
        while n < program.len() && n < room
            invariant
                start == addr,
                room > 0 ==> start + room <= self@.bytes.len(),
                n <= program@.len(),
                self@.bytes.len() == old(self)@.bytes.len(),
                self@.requested == old(self)@.requested,
                self@.accesses == old(self)@.accesses,
                self@.elapsed == old(self)@.elapsed,
                forall|i: int|
                    0 <= i < self@.bytes.len() ==> self@.bytes[i] == if addr <= i < addr + n {
                        program@[i - addr]
                    } else {
                        old(self)@.bytes[i]
                    },
            decreases program@.len() - n,
        {
            let len = self.bytes.len();
            assert(start + n < len);
            self.bytes.set(start + n, program[n]);
            n = n + 1;
        }
    }

    fn count(&mut self)
        ensures
            final(self)@ == old(self)@.counted(),
    {
        self.accesses = self.accesses.wrapping_add(1);
        proof {
            self.elapsed@ = self.elapsed@ + 1;
        }
    }
}

impl Bus for Ram {
    type Model = RamModel;

    open spec fn model(&self) -> RamModel {
        self@
    }

    open spec fn value_at(m: RamModel, addr: u16) -> u8 {
        m.at(addr)
    }

    open spec fn after_read(m: RamModel, addr: u16) -> RamModel {
        m.counted()
    }

    open spec fn after_write(m: RamModel, addr: u16, value: u8) -> RamModel {
        m.stored(addr, value).counted()
    }

    open spec fn after_tick(m: RamModel) -> RamModel {
        m.counted()
    }

    open spec fn pending(m: RamModel) -> Option<Interrupt> {
        m.requested
    }

    fn read(&mut self, addr: u16) -> (value: u8) {
        let value = self.peek(addr);
        self.count();
        value
    }

    fn write(&mut self, addr: u16, value: u8) {
        self.poke(addr, value);
        self.count();
    }

    fn tick(&mut self) {
        self.count();
    }

    fn pending_interrupt(&self) -> (irq: Option<Interrupt>) {
        self.requested
    }
}

} // verus!
