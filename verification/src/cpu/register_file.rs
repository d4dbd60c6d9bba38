//! The register file: eight 8-bit registers, the stack pointer, the program
//! counter, and the 16-bit pairs that view the same storage.

use vstd::prelude::*;

verus! {

/// One of the four condition flags.
#[derive(Clone, Copy, Debug, PartialEq, Eq, Structural)]
pub enum Flag {
    /// Zero: the last result was zero.
    Z,
    /// Subtract: the last operation was a subtraction.
    N,
    /// Half carry: carry out of (or borrow into) the low nibble.
    H,
    /// Carry: carry out of (or borrow past) the top bit.
    C,
}

/// The four flags that make up register F.
///
/// F keeps them in its top nibble; its bottom nibble has no storage at all,
/// so it reads as zero whatever was written.
#[derive(Clone, Copy, Debug, PartialEq, Eq, Structural)]
pub struct Flags {
    pub z: bool,
    pub n: bool,
    pub h: bool,
    pub c: bool,
}

/// Bit weights of the flags inside F.
pub const FLAG_Z: u8 = 0x80;

pub const FLAG_N: u8 = 0x40;

pub const FLAG_H: u8 = 0x20;

pub const FLAG_C: u8 = 0x10;

/// `1` for a set flag, `0` for a clear one.
pub open spec fn bit(b: bool) -> int {
    if b {
        1
    } else {
        0
    }
}

impl Flags {
    /// The byte F reads as.
    pub open spec fn bits(self) -> u8 {
        (128 * bit(self.z) + 64 * bit(self.n) + 32 * bit(self.h) + 16 * bit(self.c)) as u8
    }

    /// The flags a byte written to F leaves behind: its low nibble is dropped.
    pub open spec fn unpack(byte: u8) -> Flags {
        Flags {
            z: byte / 128 % 2 == 1,
            n: byte / 64 % 2 == 1,
            h: byte / 32 % 2 == 1,
            c: byte / 16 % 2 == 1,
        }
    }

    pub open spec fn get(self, flag: Flag) -> bool {
        match flag {
            Flag::Z => self.z,
            Flag::N => self.n,
            Flag::H => self.h,
            Flag::C => self.c,
        }
    }

    pub open spec fn with(self, flag: Flag, value: bool) -> Flags {
        match flag {
            Flag::Z => Flags { z: value, ..self },
            Flag::N => Flags { n: value, ..self },
            Flag::H => Flags { h: value, ..self },
            Flag::C => Flags { c: value, ..self },
        }
    }

    /// All four flags clear.
    pub fn empty() -> (flags: Flags)
        ensures
            flags == (Flags { z: false, n: false, h: false, c: false }),
            flags.bits() == 0,
    {
        Flags { z: false, n: false, h: false, c: false }
    }

    /// Packs the flags into the byte F reads as.
    pub fn to_byte(self) -> (byte: u8)
        ensures
            byte == self.bits(),
            byte % 16 == 0,
    {
        let mut byte: u8 = 0;
        if self.z {
            byte = byte | FLAG_Z;
        }
        if self.n {
            byte = byte | FLAG_N;
        }
        if self.h {
            byte = byte | FLAG_H;
        }
        if self.c {
            byte = byte | FLAG_C;
        }
        proof {
            lemma_flag_bits_disjoint();
        }
        byte
    }

    /// Takes the flags out of a byte written to F.
    pub fn from_byte(byte: u8) -> (flags: Flags)
        ensures
            flags == Flags::unpack(byte),
    {
        proof {
            lemma_flag_masks(byte);
        }
        Flags {
            z: byte & FLAG_Z != 0,
            n: byte & FLAG_N != 0,
            h: byte & FLAG_H != 0,
            c: byte & FLAG_C != 0,
        }
    }

    /// Reads one flag.
    pub fn test(self, flag: Flag) -> (set: bool)
        ensures
            set == self.get(flag),
    {
        match flag {
            Flag::Z => self.z,
            Flag::N => self.n,
            Flag::H => self.h,
            Flag::C => self.c,
        }
    }

    /// Writes one flag and leaves the other three alone.
    pub fn set(&mut self, flag: Flag, value: bool)
        ensures
            *final(self) == old(self).with(flag, value),
    {
        match flag {
            Flag::Z => self.z = value,
            Flag::N => self.n = value,
            Flag::H => self.h = value,
            Flag::C => self.c = value,
        }
    }
}

proof fn lemma_flag_bits_disjoint()
    by (bit_vector)
    ensures
        0u8 | 0x80u8 == 0x80u8,
        forall|b: u8| b == 0 || b == 0x80 ==> #[trigger] (b | 0x40u8) == b + 0x40,
        forall|b: u8| b % 0x40 == 0 && b <= 0xC0 ==> #[trigger] (b | 0x20u8) == b + 0x20,
        forall|b: u8| b % 0x20 == 0 && b <= 0xE0 ==> #[trigger] (b | 0x10u8) == b + 0x10,
{
}

proof fn lemma_flag_masks(byte: u8)
    by (bit_vector)
    ensures
        (byte & 0x80 != 0) == (byte / 128 % 2 == 1),
        (byte & 0x40 != 0) == (byte / 64 % 2 == 1),
        (byte & 0x20 != 0) == (byte / 32 % 2 == 1),
        (byte & 0x10 != 0) == (byte / 16 % 2 == 1),
{
}

proof fn lemma_top_nibble(byte: u8)
    by (bit_vector)
    ensures
        (if byte / 128 % 2 == 1 {
            128int
        } else {
            0int
        }) + (if byte / 64 % 2 == 1 {
            64int
        } else {
            0int
        }) + (if byte / 32 % 2 == 1 {
            32int
        } else {
            0int
        }) + (if byte / 16 % 2 == 1 {
            16int
        } else {
            0int
        }) == byte - byte % 16,
{
}

/// Packing and unpacking are inverse on the flags, and F never shows a low nibble.
pub proof fn lemma_flags_roundtrip(flags: Flags, byte: u8)
    ensures
        Flags::unpack(flags.bits()) == flags,
        Flags::unpack(byte).bits() == byte - byte % 16,
        Flags::unpack(byte).bits() % 16 == 0,
        flags.bits() % 16 == 0,
{
    lemma_top_nibble(byte);
    lemma_top_nibble(flags.bits());
    let z = bit(flags.z);
    let n = bit(flags.n);
    let h = bit(flags.h);
    let c = bit(flags.c);
    let packed = 128 * z + 64 * n + 32 * h + 16 * c;
    assert(flags.bits() == packed);
    assert(packed / 128 == z);
    assert(packed / 64 == 2 * z + n);
    assert(packed / 32 == 4 * z + 2 * n + h);
    assert(packed / 16 == 8 * z + 4 * n + 2 * h + c);
}

/// The 8-bit registers.
#[derive(Clone, Copy, Debug, PartialEq, Eq, Structural)]
pub enum Reg8 {
    A,
    B,
    C,
    D,
    E,
    H,
    L,
    /// The flag register: only its top nibble holds anything.
    F,
}

/// The 16-bit registers: four pairs of 8-bit registers, and the stack pointer.
#[derive(Clone, Copy, Debug, PartialEq, Eq, Structural)]
pub enum Reg16 {
    AF,
    BC,
    DE,
    HL,
    SP,
}

/// Storage for every register of the processor.
#[derive(Clone, Copy, Debug, PartialEq, Eq, Structural)]
pub struct RegisterFile {
    pub a: u8,
    pub b: u8,
    pub c: u8,
    pub d: u8,
    pub e: u8,
    pub h: u8,
    pub l: u8,
    pub flags: Flags,
    pub sp: u16,
    pub pc: u16,
}

/// The 16-bit value whose high byte is `hi` and whose low byte is `lo`.
pub open spec fn pair(hi: u8, lo: u8) -> u16 {
    (hi * 256 + lo) as u16
}

/// The high byte of a 16-bit value.
pub open spec fn high(value: u16) -> u8 {
    (value / 256) as u8
}

/// The low byte of a 16-bit value.
pub open spec fn low(value: u16) -> u8 {
    (value % 256) as u8
}

/// Joins two bytes into a 16-bit value.
pub fn join(hi: u8, lo: u8) -> (value: u16)
    ensures
        value == pair(hi, lo),
        high(value) == hi,
        low(value) == lo,
{
    let value: u16 = ((hi as u16) << 8) | (lo as u16);
    proof {
        lemma_join(hi, lo);
    }
    value
}

/// Splits a 16-bit value into its high and low byte.
pub fn split(value: u16) -> (bytes: (u8, u8))
    ensures
        bytes.0 == high(value),
        bytes.1 == low(value),
        pair(bytes.0, bytes.1) == value,
{
    let hi: u8 = (value >> 8) as u8;
    let lo: u8 = (value & 0xFF) as u8;
    proof {
        lemma_split(value);
    }
    (hi, lo)
}

proof fn lemma_join(hi: u8, lo: u8)
    by (bit_vector)
    ensures
        ((hi as u16) << 8) | (lo as u16) == hi * 256 + lo,
{
}

proof fn lemma_split(value: u16)
    by (bit_vector)
    ensures
        (value >> 8) == value / 256,
        (value & 0xFF) == value % 256,
        (value >> 8) < 256,
        (value & 0xFF) < 256,
{
}

impl RegisterFile {
    /// What an 8-bit register holds.
    pub open spec fn reg8(self, reg: Reg8) -> u8 {
        match reg {
            Reg8::A => self.a,
            Reg8::B => self.b,
            Reg8::C => self.c,
            Reg8::D => self.d,
            Reg8::E => self.e,
            Reg8::H => self.h,
            Reg8::L => self.l,
            Reg8::F => self.flags.bits(),
        }
    }

    /// The register file after `value` is written to an 8-bit register.
    pub open spec fn with_reg8(self, reg: Reg8, value: u8) -> RegisterFile {
        match reg {
            Reg8::A => RegisterFile { a: value, ..self },
            Reg8::B => RegisterFile { b: value, ..self },
            Reg8::C => RegisterFile { c: value, ..self },
            Reg8::D => RegisterFile { d: value, ..self },
            Reg8::E => RegisterFile { e: value, ..self },
            Reg8::H => RegisterFile { h: value, ..self },
            Reg8::L => RegisterFile { l: value, ..self },
            Reg8::F => RegisterFile { flags: Flags::unpack(value), ..self },
        }
    }

    /// What a 16-bit register holds. The low byte of AF is F.
    pub open spec fn reg16(self, reg: Reg16) -> u16 {
        match reg {
            Reg16::AF => pair(self.a, self.flags.bits()),
            Reg16::BC => pair(self.b, self.c),
            Reg16::DE => pair(self.d, self.e),
            Reg16::HL => pair(self.h, self.l),
            Reg16::SP => self.sp,
        }
    }

    /// The register file after `value` is written to a 16-bit register:
    /// both halves of a pair change together.
    pub open spec fn with_reg16(self, reg: Reg16, value: u16) -> RegisterFile {
        match reg {
            Reg16::AF => RegisterFile { a: high(value), flags: Flags::unpack(low(value)), ..self },
            Reg16::BC => RegisterFile { b: high(value), c: low(value), ..self },
            Reg16::DE => RegisterFile { d: high(value), e: low(value), ..self },
            Reg16::HL => RegisterFile { h: high(value), l: low(value), ..self },
            Reg16::SP => RegisterFile { sp: value, ..self },
        }
    }

    /// A register file with every register zero and every flag clear.
    pub fn new() -> (regs: RegisterFile)
        ensures
            regs == (RegisterFile {
                a: 0,
                b: 0,
                c: 0,
                d: 0,
                e: 0,
                h: 0,
                l: 0,
                flags: Flags { z: false, n: false, h: false, c: false },
                sp: 0,
                pc: 0,
            }),
    {
        RegisterFile {
            a: 0,
            b: 0,
            c: 0,
            d: 0,
            e: 0,
            h: 0,
            l: 0,
            flags: Flags::empty(),
            sp: 0,
            pc: 0,
        }
    }

    /// Reads an 8-bit register.
    pub fn read8(&self, reg: Reg8) -> (value: u8)
        ensures
            value == self.reg8(reg),
            reg == Reg8::F ==> value % 16 == 0,
    {
        match reg {
            Reg8::A => self.a,
            Reg8::B => self.b,
            Reg8::C => self.c,
            Reg8::D => self.d,
            Reg8::E => self.e,
            Reg8::H => self.h,
            Reg8::L => self.l,
            Reg8::F => self.flags.to_byte(),
        }
    }

    /// Writes an 8-bit register. A write to F keeps the top nibble only.
    pub fn write8(&mut self, reg: Reg8, value: u8)
        ensures
            *final(self) == old(self).with_reg8(reg, value),
    {
        match reg {
            Reg8::A => self.a = value,
            Reg8::B => self.b = value,
            Reg8::C => self.c = value,
            Reg8::D => self.d = value,
            Reg8::E => self.e = value,
            Reg8::H => self.h = value,
            Reg8::L => self.l = value,
            Reg8::F => self.flags = Flags::from_byte(value),
        }
    }

    /// Reads a 16-bit register.
    pub fn read16(&self, reg: Reg16) -> (value: u16)
        ensures
            value == self.reg16(reg),
            reg == Reg16::AF ==> value % 16 == 0,
    {
        match reg {
            Reg16::AF => join(self.a, self.flags.to_byte()),
            Reg16::BC => join(self.b, self.c),
            Reg16::DE => join(self.d, self.e),
            Reg16::HL => join(self.h, self.l),
            Reg16::SP => self.sp,
        }
    }

    /// Writes a 16-bit register. A write to AF drops the low nibble of F.
    pub fn write16(&mut self, reg: Reg16, value: u16)
        ensures
            *final(self) == old(self).with_reg16(reg, value),
    {
        let (hi, lo) = split(value);
        match reg {
            Reg16::AF => {
                self.a = hi;
                self.flags = Flags::from_byte(lo);
            },
            Reg16::BC => {
                self.b = hi;
                self.c = lo;
            },
            Reg16::DE => {
                self.d = hi;
                self.e = lo;
            },
            Reg16::HL => {
                self.h = hi;
                self.l = lo;
            },
            Reg16::SP => self.sp = value,
        }
    }
}

proof fn lemma_nibble_of_low_byte(value: u16)
    by (bit_vector)
    ensures
        value % 256 % 16 == value % 16,
{
}

/// A 16-bit register reads back what was written to it; AF reads it back
/// without the low nibble, whatever that nibble was.
pub proof fn lemma_write16_then_read16(regs: RegisterFile, reg: Reg16, value: u16)
    ensures
        regs.with_reg16(reg, value).reg16(reg) == if reg == Reg16::AF {
            value - value % 16
        } else {
            value as int
        },
        regs.with_reg16(reg, value).reg16(Reg16::AF) % 16 == 0,
{
    let after = regs.with_reg16(reg, value);
    lemma_flags_roundtrip(after.flags, low(value));
    lemma_nibble_of_low_byte(value);
    assert(pair(high(value), low(value)) == value);
    if reg == Reg16::AF {
        assert(after.flags.bits() == low(value) - low(value) % 16);
        assert(after.reg16(Reg16::AF) == high(value) * 256 + after.flags.bits());
    }
}

/// An 8-bit register reads back what was written to it (F without the low
/// nibble), and a write to one register changes no other register.
pub proof fn lemma_write8_then_read8(regs: RegisterFile, reg: Reg8, value: u8, other: Reg8)
    ensures
        regs.with_reg8(reg, value).reg8(reg) == if reg == Reg8::F {
            value - value % 16
        } else {
            value as int
        },
        other != reg ==> regs.with_reg8(reg, value).reg8(other) == regs.reg8(other),
        regs.with_reg8(reg, value).reg8(Reg8::F) % 16 == 0,
        regs.with_reg8(reg, value).sp == regs.sp,
        regs.with_reg8(reg, value).pc == regs.pc,
{
    lemma_flags_roundtrip(regs.with_reg8(reg, value).flags, value);
}

/// A pair is its two halves: writing a pair writes both 8-bit registers, and
/// the pair reads as high byte times 256 plus low byte.
pub proof fn lemma_pair_halves(regs: RegisterFile, value: u16)
    ensures
        regs.with_reg16(Reg16::BC, value).b == value / 256,
        regs.with_reg16(Reg16::BC, value).c == value % 256,
        regs.with_reg16(Reg16::DE, value).d == value / 256,
        regs.with_reg16(Reg16::DE, value).e == value % 256,
        regs.with_reg16(Reg16::HL, value).h == value / 256,
        regs.with_reg16(Reg16::HL, value).l == value % 256,
        regs.with_reg16(Reg16::AF, value).a == value / 256,
        regs.reg16(Reg16::BC) == regs.b * 256 + regs.c,
        regs.reg16(Reg16::DE) == regs.d * 256 + regs.e,
        regs.reg16(Reg16::HL) == regs.h * 256 + regs.l,
        regs.reg16(Reg16::AF) == regs.a * 256 + regs.flags.bits(),
{
}

} // verus!
