//! The two opcode tables, and dispatch through them.
//!
//! Each table is written out entry by entry. What an entry has to be follows
//! from the fields of the opcode byte, and every entry is proved to be that.

use vstd::prelude::*;
use crate::cpu::alu::{AluOp, RotOp};
use crate::cpu::register_file::Reg16::{AF, BC, DE, HL, SP};
use crate::cpu::register_file::Reg8::{A, B, C, D, E, H, L};
use crate::cpu::register_file::Reg16;
use crate::cpu::operand::fetch8;
use crate::cpu::laws::{
    lemma_cycles_in_range, lemma_extended_cycles, lemma_extended_is_total,
    lemma_lockup_iff_undefined,
    lemma_undefined_opcodes, same_control,
};
use crate::cpu::semantics;
use crate::cpu::semantics::{data, machine, outcome};
use crate::cpu::{Addr, Cond, Cpu, Operand, Power, Signal, Step};
use crate::hardware::Bus;

verus! {

/// An instruction of the base opcode space.
#[derive(Clone, Copy, Debug, PartialEq, Eq, Structural)]
pub enum Instr {
    Nop,
    /// Copy a byte from the second operand to the first.
    Load(Operand, Operand),
    /// Combine the accumulator with an operand.
    Alu(AluOp, Operand),
    Inc(Operand),
    Dec(Operand),
    /// One of the four short rotates of the accumulator.
    RotateA(RotOp),
    Jp,
    JpHl,
    Jr,
    Call,
    Ret,
    Reti,
    JpCc(Cond),
    JrCc(Cond),
    CallCc(Cond),
    RetCc(Cond),
    /// Call the fixed address in the low page.
    Rst(u8),
    Halt,
    Stop,
    Di,
    Ei,
    Ccf,
    Scf,
    Daa,
    Cpl,
    /// Load a 16-bit register with the two bytes that follow the opcode.
    Load16Imm(Reg16),
    /// Store the stack pointer at the address that follows the opcode.
    Load16NnSp,
    /// Copy HL to the stack pointer.
    Load16SpHl,
    /// Load HL with the stack pointer moved by a signed displacement.
    Load16HlSpE,
    Push16(Reg16),
    Pop16(Reg16),
    /// Add a 16-bit register to HL.
    Add16(Reg16),
    /// Move the stack pointer by a signed displacement.
    Add16SpE,
    Inc16(Reg16),
    Dec16(Reg16),
    /// Take the next byte as an opcode of the extended space.
    CbPrefix,
    /// One of the eleven bytes that are no instruction; it locks the
    /// processor up.
    Undefined(u8),
}

/// An instruction of the extended opcode space.
#[derive(Clone, Copy, Debug, PartialEq, Eq, Structural)]
pub enum Extended {
    Rotate(RotOp, Operand),
    /// Test a bit.
    TestBit(u8, Operand),
    /// Set a bit.
    SetBit(u8, Operand),
    /// Clear a bit.
    ResetBit(u8, Operand),
}

/// The operand a 3-bit register field names.
pub open spec fn operand_of(field: int) -> Operand {
    if field == 0 {
        Operand::Reg(B)
    } else if field == 1 {
        Operand::Reg(C)
    } else if field == 2 {
        Operand::Reg(D)
    } else if field == 3 {
        Operand::Reg(E)
    } else if field == 4 {
        Operand::Reg(H)
    } else if field == 5 {
        Operand::Reg(L)
    } else if field == 6 {
        Operand::Mem(Addr::HL)
    } else {
        Operand::Reg(A)
    }
}

/// The 16-bit register a 2-bit field names in loads and arithmetic.
pub open spec fn pair_of(field: int) -> Reg16 {
    if field == 0 {
        BC
    } else if field == 1 {
        DE
    } else if field == 2 {
        HL
    } else {
        SP
    }
}

/// The 16-bit register a 2-bit field names in pushes and pops.
pub open spec fn stack_pair_of(field: int) -> Reg16 {
    if field == 3 {
        AF
    } else {
        pair_of(field)
    }
}

/// The memory operand a 2-bit field names in the loads between it and the
/// accumulator.
pub open spec fn indirect_of(field: int) -> Operand {
    if field == 0 {
        Operand::Mem(Addr::BC)
    } else if field == 1 {
        Operand::Mem(Addr::DE)
    } else if field == 2 {
        Operand::Mem(Addr::HLI)
    } else {
        Operand::Mem(Addr::HLD)
    }
}

/// The condition a 2-bit field names.
pub open spec fn cond_of(field: int) -> Cond {
    if field == 0 {
        Cond::NZ
    } else if field == 1 {
        Cond::Z
    } else if field == 2 {
        Cond::NC
    } else {
        Cond::C
    }
}

/// The operation a 3-bit field names in the arithmetic block.
pub open spec fn alu_op_of(field: int) -> AluOp {
    if field == 0 {
        AluOp::Add
    } else if field == 1 {
        AluOp::Adc
    } else if field == 2 {
        AluOp::Sub
    } else if field == 3 {
        AluOp::Sbc
    } else if field == 4 {
        AluOp::And
    } else if field == 5 {
        AluOp::Xor
    } else if field == 6 {
        AluOp::Or
    } else {
        AluOp::Cp
    }
}

/// The rotate or shift a 3-bit field names.
pub open spec fn rot_op_of(field: int) -> RotOp {
    if field == 0 {
        RotOp::Rlc
    } else if field == 1 {
        RotOp::Rrc
    } else if field == 2 {
        RotOp::Rl
    } else if field == 3 {
        RotOp::Rr
    } else if field == 4 {
        RotOp::Sla
    } else if field == 5 {
        RotOp::Sra
    } else if field == 6 {
        RotOp::Swap
    } else {
        RotOp::Srl
    }
}

/// The instructions 0x00 to 0x3F, by the middle field `y` and the low field
/// `z` of the opcode.
pub open spec fn first_quarter(y: int, z: int) -> Instr {
    if z == 0 {
        if y == 0 {
            Instr::Nop
        } else if y == 1 {
            Instr::Load16NnSp
        } else if y == 2 {
            Instr::Stop
        } else if y == 3 {
            Instr::Jr
        } else {
            Instr::JrCc(cond_of(y - 4))
        }
    } else if z == 1 {
        if y % 2 == 0 {
            Instr::Load16Imm(pair_of(y / 2))
        } else {
            Instr::Add16(pair_of(y / 2))
        }
    } else if z == 2 {
        if y % 2 == 0 {
            Instr::Load(indirect_of(y / 2), Operand::Reg(A))
        } else {
            Instr::Load(Operand::Reg(A), indirect_of(y / 2))
        }
    } else if z == 3 {
        if y % 2 == 0 {
            Instr::Inc16(pair_of(y / 2))
        } else {
            Instr::Dec16(pair_of(y / 2))
        }
    } else if z == 4 {
        Instr::Inc(operand_of(y))
    } else if z == 5 {
        Instr::Dec(operand_of(y))
    } else if z == 6 {
        Instr::Load(operand_of(y), Operand::Immediate8)
    } else if y < 4 {
        Instr::RotateA(rot_op_of(y))
    } else if y == 4 {
        Instr::Daa
    } else if y == 5 {
        Instr::Cpl
    } else if y == 6 {
        Instr::Scf
    } else {
        Instr::Ccf
    }
}

/// The instructions 0xC0 to 0xFF, by the middle field `y` and the low field
/// `z` of the opcode.
pub open spec fn last_quarter(op: u8, y: int, z: int) -> Instr {
    if z == 0 {
        if y < 4 {
            Instr::RetCc(cond_of(y))
        } else if y == 4 {
            Instr::Load(Operand::Mem(Addr::ZeroPage), Operand::Reg(A))
        } else if y == 5 {
            Instr::Add16SpE
        } else if y == 6 {
            Instr::Load(Operand::Reg(A), Operand::Mem(Addr::ZeroPage))
        } else {
            Instr::Load16HlSpE
        }
    } else if z == 1 {
        if y % 2 == 0 {
            Instr::Pop16(stack_pair_of(y / 2))
        } else if y == 1 {
            Instr::Ret
        } else if y == 3 {
            Instr::Reti
        } else if y == 5 {
            Instr::JpHl
        } else {
            Instr::Load16SpHl
        }
    } else if z == 2 {
        if y < 4 {
            Instr::JpCc(cond_of(y))
        } else if y == 4 {
            Instr::Load(Operand::Mem(Addr::ZeroPageC), Operand::Reg(A))
        } else if y == 5 {
            Instr::Load(Operand::Mem(Addr::Direct), Operand::Reg(A))
        } else if y == 6 {
            Instr::Load(Operand::Reg(A), Operand::Mem(Addr::ZeroPageC))
        } else {
            Instr::Load(Operand::Reg(A), Operand::Mem(Addr::Direct))
        }
    } else if z == 3 {
        if y == 0 {
            Instr::Jp
        } else if y == 1 {
            Instr::CbPrefix
        } else if y == 6 {
            Instr::Di
        } else if y == 7 {
            Instr::Ei
        } else {
            Instr::Undefined(op)
        }
    } else if z == 4 {
        if y < 4 {
            Instr::CallCc(cond_of(y))
        } else {
            Instr::Undefined(op)
        }
    } else if z == 5 {
        if y % 2 == 0 {
            Instr::Push16(stack_pair_of(y / 2))
        } else if y == 1 {
            Instr::Call
        } else {
            Instr::Undefined(op)
        }
    } else if z == 6 {
        Instr::Alu(alu_op_of(y), Operand::Immediate8)
    } else {
        Instr::Rst((8 * y) as u8)
    }
}

/// The instruction a byte of the base opcode space stands for.
///
/// The byte has three fields: the top two bits choose a quarter of the
/// space, the middle three bits are `y`, the low three bits are `z`. The
/// second quarter is the register-to-register loads (with the halt where
/// the load from memory to memory would be), the third is the arithmetic
/// of the accumulator with a register.
pub open spec fn instr_of(op: u8) -> Instr {
    let y = (op / 8 % 8) as int;
    let z = (op % 8) as int;
    if op < 0x40 {
        first_quarter(y, z)
    } else if op < 0x80 {
        if op == 0x76 {
            Instr::Halt
        } else {
            Instr::Load(operand_of(y), operand_of(z))
        }
    } else if op < 0xC0 {
        Instr::Alu(alu_op_of(y), operand_of(z))
    } else {
        last_quarter(op, y, z)
    }
}

/// The instruction a byte of the extended opcode space stands for: the top
/// two bits choose rotate, test, clear or set, the middle three bits the
/// rotate or the bit, the low three bits the operand.
pub open spec fn extended_of(op: u8) -> Extended {
    let y = op / 8 % 8;
    let operand = operand_of((op % 8) as int);
    if op < 0x40 {
        Extended::Rotate(rot_op_of(y as int), operand)
    } else if op < 0x80 {
        Extended::TestBit(y, operand)
    } else if op < 0xC0 {
        Extended::ResetBit(y, operand)
    } else {
        Extended::SetBit(y, operand)
    }
}

/// The eleven bytes of the base opcode space that are no instruction.
pub open spec fn is_undefined(op: u8) -> bool {
    op == 0xD3 || op == 0xDB || op == 0xDD || op == 0xE3 || op == 0xE4 || op == 0xEB || op == 0xEC
        || op == 0xED || op == 0xF4 || op == 0xFC || op == 0xFD
}

/// The base opcode table.
pub fn decode(op: u8) -> (instr: Instr)
    ensures
        instr == instr_of(op),
        instr is Undefined <==> is_undefined(op),
{
    match op {
        0x00 => Instr::Nop,
        0x01 => Instr::Load16Imm(BC),
        0x02 => Instr::Load(Operand::Mem(Addr::BC), Operand::Reg(A)),
        0x03 => Instr::Inc16(BC),
        0x04 => Instr::Inc(Operand::Reg(B)),
        0x05 => Instr::Dec(Operand::Reg(B)),
        0x06 => Instr::Load(Operand::Reg(B), Operand::Immediate8),
        0x07 => Instr::RotateA(RotOp::Rlc),
        0x08 => Instr::Load16NnSp,
        0x09 => Instr::Add16(BC),
        0x0A => Instr::Load(Operand::Reg(A), Operand::Mem(Addr::BC)),
        0x0B => Instr::Dec16(BC),
        0x0C => Instr::Inc(Operand::Reg(C)),
        0x0D => Instr::Dec(Operand::Reg(C)),
        0x0E => Instr::Load(Operand::Reg(C), Operand::Immediate8),
        0x0F => Instr::RotateA(RotOp::Rrc),
        0x10 => Instr::Stop,
        0x11 => Instr::Load16Imm(DE),
        0x12 => Instr::Load(Operand::Mem(Addr::DE), Operand::Reg(A)),
        0x13 => Instr::Inc16(DE),
        0x14 => Instr::Inc(Operand::Reg(D)),
        0x15 => Instr::Dec(Operand::Reg(D)),
        0x16 => Instr::Load(Operand::Reg(D), Operand::Immediate8),
        0x17 => Instr::RotateA(RotOp::Rl),
        0x18 => Instr::Jr,
        0x19 => Instr::Add16(DE),
        0x1A => Instr::Load(Operand::Reg(A), Operand::Mem(Addr::DE)),
        0x1B => Instr::Dec16(DE),
        0x1C => Instr::Inc(Operand::Reg(E)),
        0x1D => Instr::Dec(Operand::Reg(E)),
        0x1E => Instr::Load(Operand::Reg(E), Operand::Immediate8),
        0x1F => Instr::RotateA(RotOp::Rr),
        0x20 => Instr::JrCc(Cond::NZ),
        0x21 => Instr::Load16Imm(HL),
        0x22 => Instr::Load(Operand::Mem(Addr::HLI), Operand::Reg(A)),
        0x23 => Instr::Inc16(HL),
        0x24 => Instr::Inc(Operand::Reg(H)),
        0x25 => Instr::Dec(Operand::Reg(H)),
        0x26 => Instr::Load(Operand::Reg(H), Operand::Immediate8),
        0x27 => Instr::Daa,
        0x28 => Instr::JrCc(Cond::Z),
        0x29 => Instr::Add16(HL),
        0x2A => Instr::Load(Operand::Reg(A), Operand::Mem(Addr::HLI)),
        0x2B => Instr::Dec16(HL),
        0x2C => Instr::Inc(Operand::Reg(L)),
        0x2D => Instr::Dec(Operand::Reg(L)),
        0x2E => Instr::Load(Operand::Reg(L), Operand::Immediate8),
        0x2F => Instr::Cpl,
        0x30 => Instr::JrCc(Cond::NC),
        0x31 => Instr::Load16Imm(SP),
        0x32 => Instr::Load(Operand::Mem(Addr::HLD), Operand::Reg(A)),
        0x33 => Instr::Inc16(SP),
        0x34 => Instr::Inc(Operand::Mem(Addr::HL)),
        0x35 => Instr::Dec(Operand::Mem(Addr::HL)),
        0x36 => Instr::Load(Operand::Mem(Addr::HL), Operand::Immediate8),
        0x37 => Instr::Scf,
        0x38 => Instr::JrCc(Cond::C),
        0x39 => Instr::Add16(SP),
        0x3A => Instr::Load(Operand::Reg(A), Operand::Mem(Addr::HLD)),
        0x3B => Instr::Dec16(SP),
        0x3C => Instr::Inc(Operand::Reg(A)),
        0x3D => Instr::Dec(Operand::Reg(A)),
        0x3E => Instr::Load(Operand::Reg(A), Operand::Immediate8),
        0x3F => Instr::Ccf,
        0x40 => Instr::Load(Operand::Reg(B), Operand::Reg(B)),
        0x41 => Instr::Load(Operand::Reg(B), Operand::Reg(C)),
        0x42 => Instr::Load(Operand::Reg(B), Operand::Reg(D)),
        0x43 => Instr::Load(Operand::Reg(B), Operand::Reg(E)),
        0x44 => Instr::Load(Operand::Reg(B), Operand::Reg(H)),
        0x45 => Instr::Load(Operand::Reg(B), Operand::Reg(L)),
        0x46 => Instr::Load(Operand::Reg(B), Operand::Mem(Addr::HL)),
        0x47 => Instr::Load(Operand::Reg(B), Operand::Reg(A)),
        0x48 => Instr::Load(Operand::Reg(C), Operand::Reg(B)),
        0x49 => Instr::Load(Operand::Reg(C), Operand::Reg(C)),
        0x4A => Instr::Load(Operand::Reg(C), Operand::Reg(D)),
        0x4B => Instr::Load(Operand::Reg(C), Operand::Reg(E)),
        0x4C => Instr::Load(Operand::Reg(C), Operand::Reg(H)),
        0x4D => Instr::Load(Operand::Reg(C), Operand::Reg(L)),
        0x4E => Instr::Load(Operand::Reg(C), Operand::Mem(Addr::HL)),
        0x4F => Instr::Load(Operand::Reg(C), Operand::Reg(A)),
        0x50 => Instr::Load(Operand::Reg(D), Operand::Reg(B)),
        0x51 => Instr::Load(Operand::Reg(D), Operand::Reg(C)),
        0x52 => Instr::Load(Operand::Reg(D), Operand::Reg(D)),
        0x53 => Instr::Load(Operand::Reg(D), Operand::Reg(E)),
        0x54 => Instr::Load(Operand::Reg(D), Operand::Reg(H)),
        0x55 => Instr::Load(Operand::Reg(D), Operand::Reg(L)),
        0x56 => Instr::Load(Operand::Reg(D), Operand::Mem(Addr::HL)),
        0x57 => Instr::Load(Operand::Reg(D), Operand::Reg(A)),
        0x58 => Instr::Load(Operand::Reg(E), Operand::Reg(B)),
        0x59 => Instr::Load(Operand::Reg(E), Operand::Reg(C)),
        0x5A => Instr::Load(Operand::Reg(E), Operand::Reg(D)),
        0x5B => Instr::Load(Operand::Reg(E), Operand::Reg(E)),
        0x5C => Instr::Load(Operand::Reg(E), Operand::Reg(H)),
        0x5D => Instr::Load(Operand::Reg(E), Operand::Reg(L)),
        0x5E => Instr::Load(Operand::Reg(E), Operand::Mem(Addr::HL)),
        0x5F => Instr::Load(Operand::Reg(E), Operand::Reg(A)),
        0x60 => Instr::Load(Operand::Reg(H), Operand::Reg(B)),
        0x61 => Instr::Load(Operand::Reg(H), Operand::Reg(C)),
        0x62 => Instr::Load(Operand::Reg(H), Operand::Reg(D)),
        0x63 => Instr::Load(Operand::Reg(H), Operand::Reg(E)),
        0x64 => Instr::Load(Operand::Reg(H), Operand::Reg(H)),
        0x65 => Instr::Load(Operand::Reg(H), Operand::Reg(L)),
        0x66 => Instr::Load(Operand::Reg(H), Operand::Mem(Addr::HL)),
        0x67 => Instr::Load(Operand::Reg(H), Operand::Reg(A)),
        0x68 => Instr::Load(Operand::Reg(L), Operand::Reg(B)),
        0x69 => Instr::Load(Operand::Reg(L), Operand::Reg(C)),
        0x6A => Instr::Load(Operand::Reg(L), Operand::Reg(D)),
        0x6B => Instr::Load(Operand::Reg(L), Operand::Reg(E)),
        0x6C => Instr::Load(Operand::Reg(L), Operand::Reg(H)),
        0x6D => Instr::Load(Operand::Reg(L), Operand::Reg(L)),
        0x6E => Instr::Load(Operand::Reg(L), Operand::Mem(Addr::HL)),
        0x6F => Instr::Load(Operand::Reg(L), Operand::Reg(A)),
        0x70 => Instr::Load(Operand::Mem(Addr::HL), Operand::Reg(B)),
        0x71 => Instr::Load(Operand::Mem(Addr::HL), Operand::Reg(C)),
        0x72 => Instr::Load(Operand::Mem(Addr::HL), Operand::Reg(D)),
        0x73 => Instr::Load(Operand::Mem(Addr::HL), Operand::Reg(E)),
        0x74 => Instr::Load(Operand::Mem(Addr::HL), Operand::Reg(H)),
        0x75 => Instr::Load(Operand::Mem(Addr::HL), Operand::Reg(L)),
        0x76 => Instr::Halt,
        0x77 => Instr::Load(Operand::Mem(Addr::HL), Operand::Reg(A)),
        0x78 => Instr::Load(Operand::Reg(A), Operand::Reg(B)),
        0x79 => Instr::Load(Operand::Reg(A), Operand::Reg(C)),
        0x7A => Instr::Load(Operand::Reg(A), Operand::Reg(D)),
        0x7B => Instr::Load(Operand::Reg(A), Operand::Reg(E)),
        0x7C => Instr::Load(Operand::Reg(A), Operand::Reg(H)),
        0x7D => Instr::Load(Operand::Reg(A), Operand::Reg(L)),
        0x7E => Instr::Load(Operand::Reg(A), Operand::Mem(Addr::HL)),
        0x7F => Instr::Load(Operand::Reg(A), Operand::Reg(A)),
        0x80 => Instr::Alu(AluOp::Add, Operand::Reg(B)),
        0x81 => Instr::Alu(AluOp::Add, Operand::Reg(C)),
        0x82 => Instr::Alu(AluOp::Add, Operand::Reg(D)),
        0x83 => Instr::Alu(AluOp::Add, Operand::Reg(E)),
        0x84 => Instr::Alu(AluOp::Add, Operand::Reg(H)),
        0x85 => Instr::Alu(AluOp::Add, Operand::Reg(L)),
        0x86 => Instr::Alu(AluOp::Add, Operand::Mem(Addr::HL)),
        0x87 => Instr::Alu(AluOp::Add, Operand::Reg(A)),
        0x88 => Instr::Alu(AluOp::Adc, Operand::Reg(B)),
        0x89 => Instr::Alu(AluOp::Adc, Operand::Reg(C)),
        0x8A => Instr::Alu(AluOp::Adc, Operand::Reg(D)),
        0x8B => Instr::Alu(AluOp::Adc, Operand::Reg(E)),
        0x8C => Instr::Alu(AluOp::Adc, Operand::Reg(H)),
        0x8D => Instr::Alu(AluOp::Adc, Operand::Reg(L)),
        0x8E => Instr::Alu(AluOp::Adc, Operand::Mem(Addr::HL)),
        0x8F => Instr::Alu(AluOp::Adc, Operand::Reg(A)),
        0x90 => Instr::Alu(AluOp::Sub, Operand::Reg(B)),
        0x91 => Instr::Alu(AluOp::Sub, Operand::Reg(C)),
        0x92 => Instr::Alu(AluOp::Sub, Operand::Reg(D)),
        0x93 => Instr::Alu(AluOp::Sub, Operand::Reg(E)),
        0x94 => Instr::Alu(AluOp::Sub, Operand::Reg(H)),
        0x95 => Instr::Alu(AluOp::Sub, Operand::Reg(L)),
        0x96 => Instr::Alu(AluOp::Sub, Operand::Mem(Addr::HL)),
        0x97 => Instr::Alu(AluOp::Sub, Operand::Reg(A)),
        0x98 => Instr::Alu(AluOp::Sbc, Operand::Reg(B)),
        0x99 => Instr::Alu(AluOp::Sbc, Operand::Reg(C)),
        0x9A => Instr::Alu(AluOp::Sbc, Operand::Reg(D)),
        0x9B => Instr::Alu(AluOp::Sbc, Operand::Reg(E)),
        0x9C => Instr::Alu(AluOp::Sbc, Operand::Reg(H)),
        0x9D => Instr::Alu(AluOp::Sbc, Operand::Reg(L)),
        0x9E => Instr::Alu(AluOp::Sbc, Operand::Mem(Addr::HL)),
        0x9F => Instr::Alu(AluOp::Sbc, Operand::Reg(A)),
        0xA0 => Instr::Alu(AluOp::And, Operand::Reg(B)),
        0xA1 => Instr::Alu(AluOp::And, Operand::Reg(C)),
        0xA2 => Instr::Alu(AluOp::And, Operand::Reg(D)),
        0xA3 => Instr::Alu(AluOp::And, Operand::Reg(E)),
        0xA4 => Instr::Alu(AluOp::And, Operand::Reg(H)),
        0xA5 => Instr::Alu(AluOp::And, Operand::Reg(L)),
        0xA6 => Instr::Alu(AluOp::And, Operand::Mem(Addr::HL)),
        0xA7 => Instr::Alu(AluOp::And, Operand::Reg(A)),
        0xA8 => Instr::Alu(AluOp::Xor, Operand::Reg(B)),
        0xA9 => Instr::Alu(AluOp::Xor, Operand::Reg(C)),
        0xAA => Instr::Alu(AluOp::Xor, Operand::Reg(D)),
        0xAB => Instr::Alu(AluOp::Xor, Operand::Reg(E)),
        0xAC => Instr::Alu(AluOp::Xor, Operand::Reg(H)),
        0xAD => Instr::Alu(AluOp::Xor, Operand::Reg(L)),
        0xAE => Instr::Alu(AluOp::Xor, Operand::Mem(Addr::HL)),
        0xAF => Instr::Alu(AluOp::Xor, Operand::Reg(A)),
        0xB0 => Instr::Alu(AluOp::Or, Operand::Reg(B)),
        0xB1 => Instr::Alu(AluOp::Or, Operand::Reg(C)),
        0xB2 => Instr::Alu(AluOp::Or, Operand::Reg(D)),
        0xB3 => Instr::Alu(AluOp::Or, Operand::Reg(E)),
        0xB4 => Instr::Alu(AluOp::Or, Operand::Reg(H)),
        0xB5 => Instr::Alu(AluOp::Or, Operand::Reg(L)),
        0xB6 => Instr::Alu(AluOp::Or, Operand::Mem(Addr::HL)),
        0xB7 => Instr::Alu(AluOp::Or, Operand::Reg(A)),
        0xB8 => Instr::Alu(AluOp::Cp, Operand::Reg(B)),
        0xB9 => Instr::Alu(AluOp::Cp, Operand::Reg(C)),
        0xBA => Instr::Alu(AluOp::Cp, Operand::Reg(D)),
        0xBB => Instr::Alu(AluOp::Cp, Operand::Reg(E)),
        0xBC => Instr::Alu(AluOp::Cp, Operand::Reg(H)),
        0xBD => Instr::Alu(AluOp::Cp, Operand::Reg(L)),
        0xBE => Instr::Alu(AluOp::Cp, Operand::Mem(Addr::HL)),
        0xBF => Instr::Alu(AluOp::Cp, Operand::Reg(A)),
        0xC0 => Instr::RetCc(Cond::NZ),
        0xC1 => Instr::Pop16(BC),
        0xC2 => Instr::JpCc(Cond::NZ),
        0xC3 => Instr::Jp,
        0xC4 => Instr::CallCc(Cond::NZ),
        0xC5 => Instr::Push16(BC),
        0xC6 => Instr::Alu(AluOp::Add, Operand::Immediate8),
        0xC7 => Instr::Rst(0x00),
        0xC8 => Instr::RetCc(Cond::Z),
        0xC9 => Instr::Ret,
        0xCA => Instr::JpCc(Cond::Z),
        0xCB => Instr::CbPrefix,
        0xCC => Instr::CallCc(Cond::Z),
        0xCD => Instr::Call,
        0xCE => Instr::Alu(AluOp::Adc, Operand::Immediate8),
        0xCF => Instr::Rst(0x08),
        0xD0 => Instr::RetCc(Cond::NC),
        0xD1 => Instr::Pop16(DE),
        0xD2 => Instr::JpCc(Cond::NC),
        0xD3 => Instr::Undefined(op),
        0xD4 => Instr::CallCc(Cond::NC),
        0xD5 => Instr::Push16(DE),
        0xD6 => Instr::Alu(AluOp::Sub, Operand::Immediate8),
        0xD7 => Instr::Rst(0x10),
        0xD8 => Instr::RetCc(Cond::C),
        0xD9 => Instr::Reti,
        0xDA => Instr::JpCc(Cond::C),
        0xDB => Instr::Undefined(op),
        0xDC => Instr::CallCc(Cond::C),
        0xDD => Instr::Undefined(op),
        0xDE => Instr::Alu(AluOp::Sbc, Operand::Immediate8),
        0xDF => Instr::Rst(0x18),
        0xE0 => Instr::Load(Operand::Mem(Addr::ZeroPage), Operand::Reg(A)),
        0xE1 => Instr::Pop16(HL),
        0xE2 => Instr::Load(Operand::Mem(Addr::ZeroPageC), Operand::Reg(A)),
        0xE3 => Instr::Undefined(op),
        0xE4 => Instr::Undefined(op),
        0xE5 => Instr::Push16(HL),
        0xE6 => Instr::Alu(AluOp::And, Operand::Immediate8),
        0xE7 => Instr::Rst(0x20),
        0xE8 => Instr::Add16SpE,
        0xE9 => Instr::JpHl,
        0xEA => Instr::Load(Operand::Mem(Addr::Direct), Operand::Reg(A)),
        0xEB => Instr::Undefined(op),
        0xEC => Instr::Undefined(op),
        0xED => Instr::Undefined(op),
        0xEE => Instr::Alu(AluOp::Xor, Operand::Immediate8),
        0xEF => Instr::Rst(0x28),
        0xF0 => Instr::Load(Operand::Reg(A), Operand::Mem(Addr::ZeroPage)),
        0xF1 => Instr::Pop16(AF),
        0xF2 => Instr::Load(Operand::Reg(A), Operand::Mem(Addr::ZeroPageC)),
        0xF3 => Instr::Di,
        0xF4 => Instr::Undefined(op),
        0xF5 => Instr::Push16(AF),
        0xF6 => Instr::Alu(AluOp::Or, Operand::Immediate8),
        0xF7 => Instr::Rst(0x30),
        0xF8 => Instr::Load16HlSpE,
        0xF9 => Instr::Load16SpHl,
        0xFA => Instr::Load(Operand::Reg(A), Operand::Mem(Addr::Direct)),
        0xFB => Instr::Ei,
        0xFC => Instr::Undefined(op),
        0xFD => Instr::Undefined(op),
        0xFE => Instr::Alu(AluOp::Cp, Operand::Immediate8),
        0xFF => Instr::Rst(0x38),
    }
}

/// The extended opcode table. It has no undefined entry.
pub fn decode_extended(op: u8) -> (instr: Extended)
    ensures
        instr == extended_of(op),
{
    match op {
        0x00 => Extended::Rotate(RotOp::Rlc, Operand::Reg(B)),
        0x01 => Extended::Rotate(RotOp::Rlc, Operand::Reg(C)),
        0x02 => Extended::Rotate(RotOp::Rlc, Operand::Reg(D)),
        0x03 => Extended::Rotate(RotOp::Rlc, Operand::Reg(E)),
        0x04 => Extended::Rotate(RotOp::Rlc, Operand::Reg(H)),
        0x05 => Extended::Rotate(RotOp::Rlc, Operand::Reg(L)),
        0x06 => Extended::Rotate(RotOp::Rlc, Operand::Mem(Addr::HL)),
        0x07 => Extended::Rotate(RotOp::Rlc, Operand::Reg(A)),
        0x08 => Extended::Rotate(RotOp::Rrc, Operand::Reg(B)),
        0x09 => Extended::Rotate(RotOp::Rrc, Operand::Reg(C)),
        0x0A => Extended::Rotate(RotOp::Rrc, Operand::Reg(D)),
        0x0B => Extended::Rotate(RotOp::Rrc, Operand::Reg(E)),
        0x0C => Extended::Rotate(RotOp::Rrc, Operand::Reg(H)),
        0x0D => Extended::Rotate(RotOp::Rrc, Operand::Reg(L)),
        0x0E => Extended::Rotate(RotOp::Rrc, Operand::Mem(Addr::HL)),
        0x0F => Extended::Rotate(RotOp::Rrc, Operand::Reg(A)),
        0x10 => Extended::Rotate(RotOp::Rl, Operand::Reg(B)),
        0x11 => Extended::Rotate(RotOp::Rl, Operand::Reg(C)),
        0x12 => Extended::Rotate(RotOp::Rl, Operand::Reg(D)),
        0x13 => Extended::Rotate(RotOp::Rl, Operand::Reg(E)),
        0x14 => Extended::Rotate(RotOp::Rl, Operand::Reg(H)),
        0x15 => Extended::Rotate(RotOp::Rl, Operand::Reg(L)),
        0x16 => Extended::Rotate(RotOp::Rl, Operand::Mem(Addr::HL)),
        0x17 => Extended::Rotate(RotOp::Rl, Operand::Reg(A)),
        0x18 => Extended::Rotate(RotOp::Rr, Operand::Reg(B)),
        0x19 => Extended::Rotate(RotOp::Rr, Operand::Reg(C)),
        0x1A => Extended::Rotate(RotOp::Rr, Operand::Reg(D)),
        0x1B => Extended::Rotate(RotOp::Rr, Operand::Reg(E)),
        0x1C => Extended::Rotate(RotOp::Rr, Operand::Reg(H)),
        0x1D => Extended::Rotate(RotOp::Rr, Operand::Reg(L)),
        0x1E => Extended::Rotate(RotOp::Rr, Operand::Mem(Addr::HL)),
        0x1F => Extended::Rotate(RotOp::Rr, Operand::Reg(A)),
        0x20 => Extended::Rotate(RotOp::Sla, Operand::Reg(B)),
        0x21 => Extended::Rotate(RotOp::Sla, Operand::Reg(C)),
        0x22 => Extended::Rotate(RotOp::Sla, Operand::Reg(D)),
        0x23 => Extended::Rotate(RotOp::Sla, Operand::Reg(E)),
        0x24 => Extended::Rotate(RotOp::Sla, Operand::Reg(H)),
        0x25 => Extended::Rotate(RotOp::Sla, Operand::Reg(L)),
        0x26 => Extended::Rotate(RotOp::Sla, Operand::Mem(Addr::HL)),
        0x27 => Extended::Rotate(RotOp::Sla, Operand::Reg(A)),
        0x28 => Extended::Rotate(RotOp::Sra, Operand::Reg(B)),
        0x29 => Extended::Rotate(RotOp::Sra, Operand::Reg(C)),
        0x2A => Extended::Rotate(RotOp::Sra, Operand::Reg(D)),
        0x2B => Extended::Rotate(RotOp::Sra, Operand::Reg(E)),
        0x2C => Extended::Rotate(RotOp::Sra, Operand::Reg(H)),
        0x2D => Extended::Rotate(RotOp::Sra, Operand::Reg(L)),
        0x2E => Extended::Rotate(RotOp::Sra, Operand::Mem(Addr::HL)),
        0x2F => Extended::Rotate(RotOp::Sra, Operand::Reg(A)),
        0x30 => Extended::Rotate(RotOp::Swap, Operand::Reg(B)),
        0x31 => Extended::Rotate(RotOp::Swap, Operand::Reg(C)),
        0x32 => Extended::Rotate(RotOp::Swap, Operand::Reg(D)),
        0x33 => Extended::Rotate(RotOp::Swap, Operand::Reg(E)),
        0x34 => Extended::Rotate(RotOp::Swap, Operand::Reg(H)),
        0x35 => Extended::Rotate(RotOp::Swap, Operand::Reg(L)),
        0x36 => Extended::Rotate(RotOp::Swap, Operand::Mem(Addr::HL)),
        0x37 => Extended::Rotate(RotOp::Swap, Operand::Reg(A)),
        0x38 => Extended::Rotate(RotOp::Srl, Operand::Reg(B)),
        0x39 => Extended::Rotate(RotOp::Srl, Operand::Reg(C)),
        0x3A => Extended::Rotate(RotOp::Srl, Operand::Reg(D)),
        0x3B => Extended::Rotate(RotOp::Srl, Operand::Reg(E)),
        0x3C => Extended::Rotate(RotOp::Srl, Operand::Reg(H)),
        0x3D => Extended::Rotate(RotOp::Srl, Operand::Reg(L)),
        0x3E => Extended::Rotate(RotOp::Srl, Operand::Mem(Addr::HL)),
        0x3F => Extended::Rotate(RotOp::Srl, Operand::Reg(A)),
        0x40 => Extended::TestBit(0, Operand::Reg(B)),
        0x41 => Extended::TestBit(0, Operand::Reg(C)),
        0x42 => Extended::TestBit(0, Operand::Reg(D)),
        0x43 => Extended::TestBit(0, Operand::Reg(E)),
        0x44 => Extended::TestBit(0, Operand::Reg(H)),
        0x45 => Extended::TestBit(0, Operand::Reg(L)),
        0x46 => Extended::TestBit(0, Operand::Mem(Addr::HL)),
        0x47 => Extended::TestBit(0, Operand::Reg(A)),
        0x48 => Extended::TestBit(1, Operand::Reg(B)),
        0x49 => Extended::TestBit(1, Operand::Reg(C)),
        0x4A => Extended::TestBit(1, Operand::Reg(D)),
        0x4B => Extended::TestBit(1, Operand::Reg(E)),
        0x4C => Extended::TestBit(1, Operand::Reg(H)),
        0x4D => Extended::TestBit(1, Operand::Reg(L)),
        0x4E => Extended::TestBit(1, Operand::Mem(Addr::HL)),
        0x4F => Extended::TestBit(1, Operand::Reg(A)),
        0x50 => Extended::TestBit(2, Operand::Reg(B)),
        0x51 => Extended::TestBit(2, Operand::Reg(C)),
        0x52 => Extended::TestBit(2, Operand::Reg(D)),
        0x53 => Extended::TestBit(2, Operand::Reg(E)),
        0x54 => Extended::TestBit(2, Operand::Reg(H)),
        0x55 => Extended::TestBit(2, Operand::Reg(L)),
        0x56 => Extended::TestBit(2, Operand::Mem(Addr::HL)),
        0x57 => Extended::TestBit(2, Operand::Reg(A)),
        0x58 => Extended::TestBit(3, Operand::Reg(B)),
        0x59 => Extended::TestBit(3, Operand::Reg(C)),
        0x5A => Extended::TestBit(3, Operand::Reg(D)),
        0x5B => Extended::TestBit(3, Operand::Reg(E)),
        0x5C => Extended::TestBit(3, Operand::Reg(H)),
        0x5D => Extended::TestBit(3, Operand::Reg(L)),
        0x5E => Extended::TestBit(3, Operand::Mem(Addr::HL)),
        0x5F => Extended::TestBit(3, Operand::Reg(A)),
        0x60 => Extended::TestBit(4, Operand::Reg(B)),
        0x61 => Extended::TestBit(4, Operand::Reg(C)),
        0x62 => Extended::TestBit(4, Operand::Reg(D)),
        0x63 => Extended::TestBit(4, Operand::Reg(E)),
        0x64 => Extended::TestBit(4, Operand::Reg(H)),
        0x65 => Extended::TestBit(4, Operand::Reg(L)),
        0x66 => Extended::TestBit(4, Operand::Mem(Addr::HL)),
        0x67 => Extended::TestBit(4, Operand::Reg(A)),
        0x68 => Extended::TestBit(5, Operand::Reg(B)),
        0x69 => Extended::TestBit(5, Operand::Reg(C)),
        0x6A => Extended::TestBit(5, Operand::Reg(D)),
        0x6B => Extended::TestBit(5, Operand::Reg(E)),
        0x6C => Extended::TestBit(5, Operand::Reg(H)),
        0x6D => Extended::TestBit(5, Operand::Reg(L)),
        0x6E => Extended::TestBit(5, Operand::Mem(Addr::HL)),
        0x6F => Extended::TestBit(5, Operand::Reg(A)),
        0x70 => Extended::TestBit(6, Operand::Reg(B)),
        0x71 => Extended::TestBit(6, Operand::Reg(C)),
        0x72 => Extended::TestBit(6, Operand::Reg(D)),
        0x73 => Extended::TestBit(6, Operand::Reg(E)),
        0x74 => Extended::TestBit(6, Operand::Reg(H)),
        0x75 => Extended::TestBit(6, Operand::Reg(L)),
        0x76 => Extended::TestBit(6, Operand::Mem(Addr::HL)),
        0x77 => Extended::TestBit(6, Operand::Reg(A)),
        0x78 => Extended::TestBit(7, Operand::Reg(B)),
        0x79 => Extended::TestBit(7, Operand::Reg(C)),
        0x7A => Extended::TestBit(7, Operand::Reg(D)),
        0x7B => Extended::TestBit(7, Operand::Reg(E)),
        0x7C => Extended::TestBit(7, Operand::Reg(H)),
        0x7D => Extended::TestBit(7, Operand::Reg(L)),
        0x7E => Extended::TestBit(7, Operand::Mem(Addr::HL)),
        0x7F => Extended::TestBit(7, Operand::Reg(A)),
        0x80 => Extended::ResetBit(0, Operand::Reg(B)),
        0x81 => Extended::ResetBit(0, Operand::Reg(C)),
        0x82 => Extended::ResetBit(0, Operand::Reg(D)),
        0x83 => Extended::ResetBit(0, Operand::Reg(E)),
        0x84 => Extended::ResetBit(0, Operand::Reg(H)),
        0x85 => Extended::ResetBit(0, Operand::Reg(L)),
        0x86 => Extended::ResetBit(0, Operand::Mem(Addr::HL)),
        0x87 => Extended::ResetBit(0, Operand::Reg(A)),
        0x88 => Extended::ResetBit(1, Operand::Reg(B)),
        0x89 => Extended::ResetBit(1, Operand::Reg(C)),
        0x8A => Extended::ResetBit(1, Operand::Reg(D)),
        0x8B => Extended::ResetBit(1, Operand::Reg(E)),
        0x8C => Extended::ResetBit(1, Operand::Reg(H)),
        0x8D => Extended::ResetBit(1, Operand::Reg(L)),
        0x8E => Extended::ResetBit(1, Operand::Mem(Addr::HL)),
        0x8F => Extended::ResetBit(1, Operand::Reg(A)),
        0x90 => Extended::ResetBit(2, Operand::Reg(B)),
        0x91 => Extended::ResetBit(2, Operand::Reg(C)),
        0x92 => Extended::ResetBit(2, Operand::Reg(D)),
        0x93 => Extended::ResetBit(2, Operand::Reg(E)),
        0x94 => Extended::ResetBit(2, Operand::Reg(H)),
        0x95 => Extended::ResetBit(2, Operand::Reg(L)),
        0x96 => Extended::ResetBit(2, Operand::Mem(Addr::HL)),
        0x97 => Extended::ResetBit(2, Operand::Reg(A)),
        0x98 => Extended::ResetBit(3, Operand::Reg(B)),
        0x99 => Extended::ResetBit(3, Operand::Reg(C)),
        0x9A => Extended::ResetBit(3, Operand::Reg(D)),
        0x9B => Extended::ResetBit(3, Operand::Reg(E)),
        0x9C => Extended::ResetBit(3, Operand::Reg(H)),
        0x9D => Extended::ResetBit(3, Operand::Reg(L)),
        0x9E => Extended::ResetBit(3, Operand::Mem(Addr::HL)),
        0x9F => Extended::ResetBit(3, Operand::Reg(A)),
        0xA0 => Extended::ResetBit(4, Operand::Reg(B)),
        0xA1 => Extended::ResetBit(4, Operand::Reg(C)),
        0xA2 => Extended::ResetBit(4, Operand::Reg(D)),
        0xA3 => Extended::ResetBit(4, Operand::Reg(E)),
        0xA4 => Extended::ResetBit(4, Operand::Reg(H)),
        0xA5 => Extended::ResetBit(4, Operand::Reg(L)),
        0xA6 => Extended::ResetBit(4, Operand::Mem(Addr::HL)),
        0xA7 => Extended::ResetBit(4, Operand::Reg(A)),
        0xA8 => Extended::ResetBit(5, Operand::Reg(B)),
        0xA9 => Extended::ResetBit(5, Operand::Reg(C)),
        0xAA => Extended::ResetBit(5, Operand::Reg(D)),
        0xAB => Extended::ResetBit(5, Operand::Reg(E)),
        0xAC => Extended::ResetBit(5, Operand::Reg(H)),
        0xAD => Extended::ResetBit(5, Operand::Reg(L)),
        0xAE => Extended::ResetBit(5, Operand::Mem(Addr::HL)),
        0xAF => Extended::ResetBit(5, Operand::Reg(A)),
        0xB0 => Extended::ResetBit(6, Operand::Reg(B)),
        0xB1 => Extended::ResetBit(6, Operand::Reg(C)),
        0xB2 => Extended::ResetBit(6, Operand::Reg(D)),
        0xB3 => Extended::ResetBit(6, Operand::Reg(E)),
        0xB4 => Extended::ResetBit(6, Operand::Reg(H)),
        0xB5 => Extended::ResetBit(6, Operand::Reg(L)),
        0xB6 => Extended::ResetBit(6, Operand::Mem(Addr::HL)),
        0xB7 => Extended::ResetBit(6, Operand::Reg(A)),
        0xB8 => Extended::ResetBit(7, Operand::Reg(B)),
        0xB9 => Extended::ResetBit(7, Operand::Reg(C)),
        0xBA => Extended::ResetBit(7, Operand::Reg(D)),
        0xBB => Extended::ResetBit(7, Operand::Reg(E)),
        0xBC => Extended::ResetBit(7, Operand::Reg(H)),
        0xBD => Extended::ResetBit(7, Operand::Reg(L)),
        0xBE => Extended::ResetBit(7, Operand::Mem(Addr::HL)),
        0xBF => Extended::ResetBit(7, Operand::Reg(A)),
        0xC0 => Extended::SetBit(0, Operand::Reg(B)),
        0xC1 => Extended::SetBit(0, Operand::Reg(C)),
        0xC2 => Extended::SetBit(0, Operand::Reg(D)),
        0xC3 => Extended::SetBit(0, Operand::Reg(E)),
        0xC4 => Extended::SetBit(0, Operand::Reg(H)),
        0xC5 => Extended::SetBit(0, Operand::Reg(L)),
        0xC6 => Extended::SetBit(0, Operand::Mem(Addr::HL)),
        0xC7 => Extended::SetBit(0, Operand::Reg(A)),
        0xC8 => Extended::SetBit(1, Operand::Reg(B)),
        0xC9 => Extended::SetBit(1, Operand::Reg(C)),
        0xCA => Extended::SetBit(1, Operand::Reg(D)),
        0xCB => Extended::SetBit(1, Operand::Reg(E)),
        0xCC => Extended::SetBit(1, Operand::Reg(H)),
        0xCD => Extended::SetBit(1, Operand::Reg(L)),
        0xCE => Extended::SetBit(1, Operand::Mem(Addr::HL)),
        0xCF => Extended::SetBit(1, Operand::Reg(A)),
        0xD0 => Extended::SetBit(2, Operand::Reg(B)),
        0xD1 => Extended::SetBit(2, Operand::Reg(C)),
        0xD2 => Extended::SetBit(2, Operand::Reg(D)),
        0xD3 => Extended::SetBit(2, Operand::Reg(E)),
        0xD4 => Extended::SetBit(2, Operand::Reg(H)),
        0xD5 => Extended::SetBit(2, Operand::Reg(L)),
        0xD6 => Extended::SetBit(2, Operand::Mem(Addr::HL)),
        0xD7 => Extended::SetBit(2, Operand::Reg(A)),
        0xD8 => Extended::SetBit(3, Operand::Reg(B)),
        0xD9 => Extended::SetBit(3, Operand::Reg(C)),
        0xDA => Extended::SetBit(3, Operand::Reg(D)),
        0xDB => Extended::SetBit(3, Operand::Reg(E)),
        0xDC => Extended::SetBit(3, Operand::Reg(H)),
        0xDD => Extended::SetBit(3, Operand::Reg(L)),
        0xDE => Extended::SetBit(3, Operand::Mem(Addr::HL)),
        0xDF => Extended::SetBit(3, Operand::Reg(A)),
        0xE0 => Extended::SetBit(4, Operand::Reg(B)),
        0xE1 => Extended::SetBit(4, Operand::Reg(C)),
        0xE2 => Extended::SetBit(4, Operand::Reg(D)),
        0xE3 => Extended::SetBit(4, Operand::Reg(E)),
        0xE4 => Extended::SetBit(4, Operand::Reg(H)),
        0xE5 => Extended::SetBit(4, Operand::Reg(L)),
        0xE6 => Extended::SetBit(4, Operand::Mem(Addr::HL)),
        0xE7 => Extended::SetBit(4, Operand::Reg(A)),
        0xE8 => Extended::SetBit(5, Operand::Reg(B)),
        0xE9 => Extended::SetBit(5, Operand::Reg(C)),
        0xEA => Extended::SetBit(5, Operand::Reg(D)),
        0xEB => Extended::SetBit(5, Operand::Reg(E)),
        0xEC => Extended::SetBit(5, Operand::Reg(H)),
        0xED => Extended::SetBit(5, Operand::Reg(L)),
        0xEE => Extended::SetBit(5, Operand::Mem(Addr::HL)),
        0xEF => Extended::SetBit(5, Operand::Reg(A)),
        0xF0 => Extended::SetBit(6, Operand::Reg(B)),
        0xF1 => Extended::SetBit(6, Operand::Reg(C)),
        0xF2 => Extended::SetBit(6, Operand::Reg(D)),
        0xF3 => Extended::SetBit(6, Operand::Reg(E)),
        0xF4 => Extended::SetBit(6, Operand::Reg(H)),
        0xF5 => Extended::SetBit(6, Operand::Reg(L)),
        0xF6 => Extended::SetBit(6, Operand::Mem(Addr::HL)),
        0xF7 => Extended::SetBit(6, Operand::Reg(A)),
        0xF8 => Extended::SetBit(7, Operand::Reg(B)),
        0xF9 => Extended::SetBit(7, Operand::Reg(C)),
        0xFA => Extended::SetBit(7, Operand::Reg(D)),
        0xFB => Extended::SetBit(7, Operand::Reg(E)),
        0xFC => Extended::SetBit(7, Operand::Reg(H)),
        0xFD => Extended::SetBit(7, Operand::Reg(L)),
        0xFE => Extended::SetBit(7, Operand::Mem(Addr::HL)),
        0xFF => Extended::SetBit(7, Operand::Reg(A)),
    }
}

impl Cpu {
    /// Executes an instruction of the base opcode space whose opcode has been
    /// fetched.
    pub fn execute<B: Bus>(&mut self, bus: &mut B, instr: Instr) -> (step: Step)
        ensures
            outcome(*final(self), *final(bus), step) == semantics::execute::<B>(
                machine(*old(self), *old(bus)),
                instr,
            ),
    {
        match instr {
            Instr::Nop => self.nop(bus),
            Instr::Load(dst, src) => self.load(bus, dst, src),
            Instr::Alu(op, src) => self.alu(bus, op, src),
            Instr::Inc(operand) => self.inc(bus, operand),
            Instr::Dec(operand) => self.dec(bus, operand),
            Instr::RotateA(op) => self.rotate_a(bus, op),
            Instr::Jp => self.jp(bus),
            Instr::JpHl => self.jp_hl(bus),
            Instr::Jr => self.jr(bus),
            Instr::Call => self.call(bus),
            Instr::Ret => self.ret(bus),
            Instr::Reti => self.reti(bus),
            Instr::JpCc(cond) => self.jp_cc(bus, cond),
            Instr::JrCc(cond) => self.jr_cc(bus, cond),
            Instr::CallCc(cond) => self.call_cc(bus, cond),
            Instr::RetCc(cond) => self.ret_cc(bus, cond),
            Instr::Rst(target) => self.rst(bus, target),
            Instr::Halt => self.halt(bus),
            Instr::Stop => self.stop(bus),
            Instr::Di => self.di(bus),
            Instr::Ei => self.ei(bus),
            Instr::Ccf => self.ccf(bus),
            Instr::Scf => self.scf(bus),
            Instr::Daa => self.daa(bus),
            Instr::Cpl => self.cpl(bus),
            Instr::Load16Imm(reg) => self.load16_imm(bus, reg),
            Instr::Load16NnSp => self.load16_nn_sp(bus),
            Instr::Load16SpHl => self.load16_sp_hl(bus),
            Instr::Load16HlSpE => self.load16_hl_sp_e(bus),
            Instr::Push16(reg) => self.push16(bus, reg),
            Instr::Pop16(reg) => self.pop16(bus, reg),
            Instr::Add16(reg) => self.add16(bus, reg),
            Instr::Add16SpE => self.add16_sp_e(bus),
            Instr::Inc16(reg) => self.inc16(bus, reg),
            Instr::Dec16(reg) => self.dec16(bus, reg),
            Instr::CbPrefix => self.cb_prefix(bus),
            Instr::Undefined(op) => self.undefined(bus, op),
        }
    }

    /// The prefix: fetches the next byte and dispatches it through the
    /// extended table.
    pub fn cb_prefix<B: Bus>(&mut self, bus: &mut B) -> (step: Step)
        ensures
            outcome(*final(self), *final(bus), step) == semantics::execute::<B>(
                machine(*old(self), *old(bus)),
                Instr::CbPrefix,
            ),
    {
        proof {
            reveal(semantics::compute);
        }
        let op = fetch8(&mut self.regs, bus);
        proof {
            lemma_extended_cycles::<B>(data(self.regs, *bus), extended_of(op));
        }
        let step = self.cb_decode_exec_fetch(bus, op);
        Step { cycles: step.cycles + 1, signal: step.signal }
    }

    /// Dispatches a byte of the base opcode space, fetched by the caller, and
    /// executes the instruction it stands for.
    ///
    /// Every byte has an entry. The eleven undefined bytes lock the
    /// processor up: one cycle, no bus access, no register changed. No other
    /// byte does.
    pub fn decode_exec_fetch<B: Bus>(&mut self, bus: &mut B, op: u8) -> (step: Step)
        ensures
            outcome(*final(self), *final(bus), step) == semantics::execute::<B>(
                machine(*old(self), *old(bus)),
                instr_of(op),
            ),
            is_undefined(op) ==> *final(self) == (Cpu { power: Power::Locked, ..*old(self) })
                && final(bus).model() == old(bus).model() && step == (Step {
                cycles: 1,
                signal: Some(Signal::Undefined),
            }),
            !is_undefined(op) ==> step.signal != Some(Signal::Undefined),
            !is_undefined(op) && final(self).power == Power::Locked ==> old(self).power
                == Power::Locked,
            1 <= step.cycles <= 8,
    {
        proof {
            lemma_lockup_iff_undefined::<B>(machine(*self, *bus), instr_of(op));
            lemma_cycles_in_range::<B>(machine(*self, *bus), instr_of(op));
            lemma_undefined_opcodes(op);
        }
        let instr = decode(op);
        self.execute(bus, instr)
    }

    /// Dispatches a byte of the extended opcode space, fetched by the caller,
    /// and executes the instruction it stands for.
    ///
    /// Every byte has an entry and none is undefined: nothing is signalled,
    /// and nothing but registers and the bus changes.
    pub fn cb_decode_exec_fetch<B: Bus>(&mut self, bus: &mut B, op: u8) -> (step: Step)
        ensures
            outcome(*final(self), *final(bus), step) == semantics::execute_extended::<B>(
                machine(*old(self), *old(bus)),
                extended_of(op),
            ),
            step.signal is None,
            1 <= step.cycles <= 7,
            same_control(*final(self), *old(self)),
    {
        proof {
            lemma_extended_is_total::<B>(machine(*self, *bus), extended_of(op));
        }
        let instr = decode_extended(op);
        self.execute_extended(bus, instr)
    }
}

} // verus!
