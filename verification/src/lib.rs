//! Instruction execution engine of an 8-bit CPU with a two-level opcode space.
//!
//! The processor talks to the rest of the machine through [`hardware::Bus`]:
//! every read, write and idle tick is one machine cycle, and the cycle count
//! each step returns is what keeps the peripherals in time with the processor.

pub mod cpu;
pub mod hardware;
