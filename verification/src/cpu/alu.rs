//! Arithmetic and logic on bytes and words: what each operation computes and
//! which flags it leaves, stated over the integers.

use vstd::arithmetic::div_mod::lemma_mod_add_multiples_vanish;
use vstd::prelude::*;
use crate::cpu::register_file::{bit, Flags};

verus! {

/// The eight operations that combine the accumulator with an operand, in the
/// order the opcode space numbers them.
#[derive(Clone, Copy, Debug, PartialEq, Eq, Structural)]
pub enum AluOp {
    Add,
    Adc,
    Sub,
    Sbc,
    And,
    Xor,
    Or,
    Cp,
}

/// The eight rotates and shifts of the extended opcode space, in the order it
/// numbers them.
#[derive(Clone, Copy, Debug, PartialEq, Eq, Structural)]
pub enum RotOp {
    /// Rotate left; bit 7 goes to bit 0 and to the carry.
    Rlc,
    /// Rotate right; bit 0 goes to bit 7 and to the carry.
    Rrc,
    /// Rotate left through the carry.
    Rl,
    /// Rotate right through the carry.
    Rr,
    /// Shift left; bit 0 becomes 0.
    Sla,
    /// Shift right; bit 7 keeps its value.
    Sra,
    /// Exchange the two nibbles.
    Swap,
    /// Shift right; bit 7 becomes 0.
    Srl,
}

/// `a + b + carry`, cut to 8 bits. H is the carry out of bit 3, C the carry
/// out of bit 7.
pub open spec fn add8_spec(a: u8, b: u8, carry: bool) -> (u8, Flags) {
    let sum = a + b + bit(carry);
    (
        (sum % 256) as u8,
        Flags { z: sum % 256 == 0, n: false, h: a % 16 + b % 16 + bit(carry) > 15, c: sum > 255 },
    )
}

/// `a - b - carry`, cut to 8 bits. H is the borrow into bit 4, C the borrow
/// past bit 7.
pub open spec fn sub8_spec(a: u8, b: u8, carry: bool) -> (u8, Flags) {
    let diff = a - b - bit(carry);
    (
        (diff % 256) as u8,
        Flags { z: diff % 256 == 0, n: true, h: a % 16 - b % 16 - bit(carry) < 0, c: diff < 0 },
    )
}

pub open spec fn and8_spec(a: u8, b: u8) -> (u8, Flags) {
    (a & b, Flags { z: a & b == 0, n: false, h: true, c: false })
}

pub open spec fn or8_spec(a: u8, b: u8) -> (u8, Flags) {
    (a | b, Flags { z: a | b == 0, n: false, h: false, c: false })
}

pub open spec fn xor8_spec(a: u8, b: u8) -> (u8, Flags) {
    (a ^ b, Flags { z: a ^ b == 0, n: false, h: false, c: false })
}

/// What an operation leaves in the accumulator and in the flags. A compare
/// subtracts for the flags and leaves the accumulator alone.
pub open spec fn alu_spec(op: AluOp, a: u8, b: u8, carry: bool) -> (u8, Flags) {
    match op {
        AluOp::Add => add8_spec(a, b, false),
        AluOp::Adc => add8_spec(a, b, carry),
        AluOp::Sub => sub8_spec(a, b, false),
        AluOp::Sbc => sub8_spec(a, b, carry),
        AluOp::And => and8_spec(a, b),
        AluOp::Xor => xor8_spec(a, b),
        AluOp::Or => or8_spec(a, b),
        AluOp::Cp => (a, sub8_spec(a, b, false).1),
    }
}

/// `value + 1`, cut to 8 bits. The carry flag is not touched.
pub open spec fn inc8_spec(value: u8, flags: Flags) -> (u8, Flags) {
    let result = (value + 1) % 256;
    (result as u8, Flags { z: result == 0, n: false, h: value % 16 == 15, c: flags.c })
}

/// `value - 1`, cut to 8 bits. The carry flag is not touched.
pub open spec fn dec8_spec(value: u8, flags: Flags) -> (u8, Flags) {
    let result = (value - 1) % 256;
    (result as u8, Flags { z: result == 0, n: true, h: value % 16 == 0, c: flags.c })
}

/// The decimal value of a byte read as two decimal digits.
pub open spec fn bcd_value(byte: u8) -> int {
    byte / 16 * 10 + byte % 16
}

/// Whether both nibbles of a byte are decimal digits.
pub open spec fn is_bcd(byte: u8) -> bool {
    byte / 16 <= 9 && byte % 16 <= 9
}

/// The decimal adjustment of the accumulator after an addition or subtraction
/// that left `flags`.
///
/// The low digit is corrected by 6 when the operation carried out of it (H),
/// or, after an addition, when it is above 9. The high digit is corrected by
/// 0x60 when the operation carried out of the byte (C), or, after an addition,
/// when the byte is above 0x99. After an addition the corrections are added,
/// after a subtraction they are subtracted. C is set exactly when the high
/// digit was corrected.
pub open spec fn daa_spec(a: u8, flags: Flags) -> (u8, Flags) {
    let adjust = daa_adjustment(a, flags.n, flags.h, flags.c);
    let result = if flags.n {
        (a - adjust) % 256
    } else {
        (a + adjust) % 256
    };
    (
        result as u8,
        Flags { z: result == 0, n: flags.n, h: false, c: flags.c || (!flags.n && a > 0x99) },
    )
}

/// What decimal adjustment adds to the accumulator after an addition, and
/// takes from it after a subtraction (`n`): 0x06 for the low digit, 0x60 for
/// the high digit.
pub open spec fn daa_adjustment(a: u8, n: bool, h: bool, c: bool) -> int {
    (if h || (!n && a % 16 > 9) {
        0x06int
    } else {
        0int
    }) + (if c || (!n && a > 0x99) {
        0x60int
    } else {
        0int
    })
}

/// Every bit of the accumulator inverted; N and H set, Z and C kept.
pub open spec fn cpl_spec(a: u8, flags: Flags) -> (u8, Flags) {
    ((255 - a) as u8, Flags { n: true, h: true, ..flags })
}

/// The carry flag inverted; N and H cleared, Z kept.
pub open spec fn ccf_spec(flags: Flags) -> Flags {
    Flags { n: false, h: false, c: !flags.c, ..flags }
}

/// The carry flag set; N and H cleared, Z kept.
pub open spec fn scf_spec(flags: Flags) -> Flags {
    Flags { n: false, h: false, c: true, ..flags }
}

/// The byte a rotate or shift produces, and the bit that leaves the byte.
pub open spec fn rotated(op: RotOp, value: u8, carry: bool) -> (int, bool) {
    match op {
        RotOp::Rlc => (rotated_left(value), value >= 128),
        RotOp::Rrc => (rotated_right(value), value % 2 == 1),
        RotOp::Rl => (value * 2 % 256 + bit(carry), value >= 128),
        RotOp::Rr => (value / 2 + 128 * bit(carry), value % 2 == 1),
        RotOp::Sla => (value * 2 % 256, value >= 128),
        RotOp::Sra => (value / 2 + 128 * (value / 128), value % 2 == 1),
        RotOp::Swap => (swapped(value), false),
        RotOp::Srl => ((value / 2) as int, value % 2 == 1),
    }
}

/// A rotate or shift of the extended opcode space: Z from the result, N and H
/// cleared, C the bit that left the byte (clear after a swap).
pub open spec fn rotate_spec(op: RotOp, value: u8, carry: bool) -> (u8, Flags) {
    let (result, out) = rotated(op, value, carry);
    (result as u8, Flags { z: result == 0, n: false, h: false, c: out })
}

/// A rotate of the accumulator by one of the four short opcodes: as the long
/// form, but Z is always cleared.
pub open spec fn rotate_a_spec(op: RotOp, a: u8, carry: bool) -> (u8, Flags) {
    let (result, out) = rotated(op, a, carry);
    (result as u8, Flags { z: false, n: false, h: false, c: out })
}

/// The byte with only bit `index % 8` set.
pub open spec fn mask(index: u8) -> u8 {
    1u8 << (index % 8)
}

/// Whether bit `index % 8` of `value` is set.
pub open spec fn bit_is_set(index: u8, value: u8) -> bool {
    value & mask(index) != 0
}

/// Z set exactly when the tested bit is clear; N cleared, H set, C kept.
pub open spec fn bit_test_spec(index: u8, value: u8, flags: Flags) -> Flags {
    Flags { z: !bit_is_set(index, value), n: false, h: true, c: flags.c }
}

pub open spec fn bit_set_spec(index: u8, value: u8) -> u8 {
    value | mask(index)
}

pub open spec fn bit_reset_spec(index: u8, value: u8) -> u8 {
    value & !mask(index)
}

/// `hl + value`, cut to 16 bits. H is the carry out of bit 11, C the carry out
/// of bit 15; N is cleared and Z kept.
pub open spec fn add16_spec(hl: u16, value: u16, flags: Flags) -> (u16, Flags) {
    let sum = hl + value;
    (
        (sum % 0x1_0000) as u16,
        Flags { z: flags.z, n: false, h: hl % 0x1000 + value % 0x1000 > 0xFFF, c: sum > 0xFFFF },
    )
}

/// The value of a displacement byte read as a signed number.
pub open spec fn signed(displacement: u8) -> int {
    if displacement < 128 {
        displacement as int
    } else {
        displacement - 256
    }
}

/// `base` moved by a signed displacement, cut to 16 bits.
pub open spec fn offset_spec(base: u16, displacement: u8) -> u16 {
    ((base + signed(displacement)) % 0x1_0000) as u16
}

/// The stack pointer moved by a signed displacement. H and C are those of the
/// unsigned addition of the displacement byte to the low byte of the stack
/// pointer; Z and N are cleared.
pub open spec fn add_sp_spec(sp: u16, displacement: u8) -> (u16, Flags) {
    (
        offset_spec(sp, displacement),
        Flags {
            z: false,
            n: false,
            h: sp % 16 + displacement % 16 > 15,
            c: sp % 256 + displacement > 255,
        },
    )
}

proof fn lemma_nibble(value: u8)
    by (bit_vector)
    ensures
        value & 0x0F == value % 16,
{
}

proof fn lemma_low_byte(wide: u16)
    by (bit_vector)
    ensures
        wide & 0xFF == wide % 256,
        wide & 0xFF < 256,
{
}

pub fn add8(a: u8, b: u8, carry: bool) -> (out: (u8, Flags))
    ensures
        out == add8_spec(a, b, carry),
{
    let cin: u8 = if carry {
        1
    } else {
        0
    };
    let wide: u16 = a as u16 + b as u16 + cin as u16;
    let result: u8 = (wide & 0xFF) as u8;
    proof {
        lemma_low_byte(wide);
        lemma_nibble(a);
        lemma_nibble(b);
    }
    let h = (a & 0x0F) + (b & 0x0F) + cin > 0x0F;
    (result, Flags { z: result == 0, n: false, h, c: wide > 0xFF })
}

pub fn sub8(a: u8, b: u8, carry: bool) -> (out: (u8, Flags))
    ensures
        out == sub8_spec(a, b, carry),
{
    let cin: u8 = if carry {
        1
    } else {
        0
    };
    let result = a.wrapping_sub(b).wrapping_sub(cin);
    proof {
        lemma_nibble(a);
        lemma_nibble(b);
    }
    let h = (a & 0x0F) < (b & 0x0F) + cin;
    let c = (a as u16) < (b as u16) + (cin as u16);
    (result, Flags { z: result == 0, n: true, h, c })
}

pub fn and8(a: u8, b: u8) -> (out: (u8, Flags))
    ensures
        out == and8_spec(a, b),
{
    let result = a & b;
    (result, Flags { z: result == 0, n: false, h: true, c: false })
}

pub fn or8(a: u8, b: u8) -> (out: (u8, Flags))
    ensures
        out == or8_spec(a, b),
{
    let result = a | b;
    (result, Flags { z: result == 0, n: false, h: false, c: false })
}

pub fn xor8(a: u8, b: u8) -> (out: (u8, Flags))
    ensures
        out == xor8_spec(a, b),
{
    let result = a ^ b;
    (result, Flags { z: result == 0, n: false, h: false, c: false })
}

/// Combines the accumulator with an operand.
pub fn alu(op: AluOp, a: u8, b: u8, carry: bool) -> (out: (u8, Flags))
    ensures
        out == alu_spec(op, a, b, carry),
{
    match op {
        AluOp::Add => add8(a, b, false),
        AluOp::Adc => add8(a, b, carry),
        AluOp::Sub => sub8(a, b, false),
        AluOp::Sbc => sub8(a, b, carry),
        AluOp::And => and8(a, b),
        AluOp::Xor => xor8(a, b),
        AluOp::Or => or8(a, b),
        AluOp::Cp => {
            let (_, flags) = sub8(a, b, false);
            (a, flags)
        },
    }
}

pub fn inc8(value: u8, flags: Flags) -> (out: (u8, Flags))
    ensures
        out == inc8_spec(value, flags),
{
    let result = value.wrapping_add(1);
    proof {
        lemma_nibble(value);
    }
    (result, Flags { z: result == 0, n: false, h: value & 0x0F == 0x0F, c: flags.c })
}

pub fn dec8(value: u8, flags: Flags) -> (out: (u8, Flags))
    ensures
        out == dec8_spec(value, flags),
{
    let result = value.wrapping_sub(1);
    proof {
        lemma_nibble(value);
    }
    (result, Flags { z: result == 0, n: true, h: value & 0x0F == 0, c: flags.c })
}

pub fn daa(a: u8, flags: Flags) -> (out: (u8, Flags))
    ensures
        out == daa_spec(a, flags),
{
    let mut result = a;
    let mut carry = false;
    if !flags.n {
        if flags.c || result > 0x99 {
            result = result.wrapping_add(0x60);
            carry = true;
        }
        proof {
            lemma_nibble(result);
        }
        if flags.h || result & 0x0F > 0x09 {
            result = result.wrapping_add(0x06);
        }
    } else if flags.c {
        carry = true;
        result = result.wrapping_add(
            if flags.h {
                0x9A
            } else {
                0xA0
            },
        );
    } else if flags.h {
        result = result.wrapping_add(0xFA);
    }
    (result, Flags { z: result == 0, n: flags.n, h: false, c: carry })
}

pub fn cpl(a: u8, flags: Flags) -> (out: (u8, Flags))
    ensures
        out == cpl_spec(a, flags),
{
    proof {
        lemma_not(a);
    }
    (!a, Flags { z: flags.z, n: true, h: true, c: flags.c })
}

proof fn lemma_not(a: u8)
    by (bit_vector)
    ensures
        !a == 255 - a,
{
}

pub fn ccf(flags: Flags) -> (out: Flags)
    ensures
        out == ccf_spec(flags),
{
    Flags { z: flags.z, n: false, h: false, c: !flags.c }
}

pub fn scf(flags: Flags) -> (out: Flags)
    ensures
        out == scf_spec(flags),
{
    Flags { z: flags.z, n: false, h: false, c: true }
}

proof fn lemma_shift_left(value: u8)
    by (bit_vector)
    ensures
        (value << 1) | (value >> 7) == value * 2 % 256 + value / 128,
        (value << 1) | 1 == value * 2 % 256 + 1,
        value << 1 == value * 2 % 256,
        (value & 0x80 != 0) == (value >= 128),
{
}

proof fn lemma_shift_right(value: u8)
    by (bit_vector)
    ensures
        (value >> 1) | (value << 7) == value / 2 + 128 * (value % 2),
        (value >> 1) | 0x80 == value / 2 + 128,
        value >> 1 == value / 2,
        (value >> 1) | (value & 0x80) == value / 2 + 128 * (value / 128),
        (value & 0x01 != 0) == (value % 2 == 1),
{
}

proof fn lemma_swap(value: u8)
    by (bit_vector)
    ensures
        (value << 4) | (value >> 4) == value % 16 * 16 + value / 16,
{
}

/// Rotates or shifts a byte the way the extended opcode space does.
pub fn rotate(op: RotOp, value: u8, carry: bool) -> (out: (u8, Flags))
    ensures
        out == rotate_spec(op, value, carry),
{
    proof {
        lemma_shift_left(value);
        lemma_shift_right(value);
        lemma_swap(value);
    }
    let top = value & 0x80 != 0;
    let bottom = value & 0x01 != 0;
    let (result, out): (u8, bool) = match op {
        RotOp::Rlc => ((value << 1) | (value >> 7), top),
        RotOp::Rrc => ((value >> 1) | (value << 7), bottom),
        RotOp::Rl => (
            if carry {
                (value << 1) | 1
            } else {
                value << 1
            },
            top,
        ),
        RotOp::Rr => (
            if carry {
                (value >> 1) | 0x80
            } else {
                value >> 1
            },
            bottom,
        ),
        RotOp::Sla => (value << 1, top),
        RotOp::Sra => ((value >> 1) | (value & 0x80), bottom),
        RotOp::Swap => ((value << 4) | (value >> 4), false),
        RotOp::Srl => (value >> 1, bottom),
    };
    (result, Flags { z: result == 0, n: false, h: false, c: out })
}

/// Rotates the accumulator the way the four short opcodes do.
pub fn rotate_a(op: RotOp, a: u8, carry: bool) -> (out: (u8, Flags))
    ensures
        out == rotate_a_spec(op, a, carry),
{
    let (result, flags) = rotate(op, a, carry);
    (result, Flags { z: false, n: false, h: false, c: flags.c })
}

pub fn bit_test(index: u8, value: u8, flags: Flags) -> (out: Flags)
    ensures
        out == bit_test_spec(index, value, flags),
{
    let set = value & (1u8 << (index % 8)) != 0;
    Flags { z: !set, n: false, h: true, c: flags.c }
}

pub fn bit_set(index: u8, value: u8) -> (out: u8)
    ensures
        out == bit_set_spec(index, value),
{
    value | (1u8 << (index % 8))
}

pub fn bit_reset(index: u8, value: u8) -> (out: u8)
    ensures
        out == bit_reset_spec(index, value),
{
    value & !(1u8 << (index % 8))
}

proof fn lemma_carry16(hl: u16, value: u16)
    by (bit_vector)
    ensures
        (hl & 0x0FFF) == hl % 0x1000,
        (value & 0x0FFF) == value % 0x1000,
{
}

pub fn add16(hl: u16, value: u16, flags: Flags) -> (out: (u16, Flags))
    ensures
        out == add16_spec(hl, value, flags),
{
    let result = hl.wrapping_add(value);
    proof {
        lemma_carry16(hl, value);
    }
    let h = (hl & 0x0FFF) + (value & 0x0FFF) > 0x0FFF;
    let c = hl > 0xFFFF - value;
    (result, Flags { z: flags.z, n: false, h, c })
}

/// Moves an address by a signed displacement.
pub fn offset(base: u16, displacement: u8) -> (out: u16)
    ensures
        out == offset_spec(base, displacement),
{
    let moved = base.wrapping_add(displacement as u16);
    if displacement < 0x80 {
        moved
    } else {
        moved.wrapping_sub(0x100)
    }
}

proof fn lemma_low_parts(sp: u16)
    by (bit_vector)
    ensures
        (sp & 0x000F) == sp % 16,
        (sp & 0x00FF) == sp % 256,
{
}

pub fn add_sp(sp: u16, displacement: u8) -> (out: (u16, Flags))
    ensures
        out == add_sp_spec(sp, displacement),
{
    proof {
        lemma_low_parts(sp);
        lemma_nibble(displacement);
    }
    let h = (sp & 0x000F) + ((displacement & 0x0F) as u16) > 0x000F;
    let c = (sp & 0x00FF) + (displacement as u16) > 0x00FF;
    (offset(sp, displacement), Flags { z: false, n: false, h, c })
}

proof fn lemma_decimal_sum(a: u8, b: u8, cin: u8, s: u8, h: bool, c: bool)
    by (bit_vector)
    ensures
        (is_bcd(a) && is_bcd(b) && cin <= 1 && s == (a + b + cin) % 256 && h == (a % 16 + b % 16
            + cin > 15) && c == (a + b + cin > 255)) ==> (is_bcd(
            ((s + daa_adjustment(s, false, h, c)) % 256) as u8,
        ) && bcd_value(((s + daa_adjustment(s, false, h, c)) % 256) as u8) == (bcd_value(a)
            + bcd_value(b) + cin) % 100 && (c || s > 0x99) == (bcd_value(a) + bcd_value(b) + cin
            >= 100)),
{
}

proof fn lemma_decimal_difference(a: u8, b: u8, cin: u8, d: u8, h: bool, c: bool)
    by (bit_vector)
    ensures
        (is_bcd(a) && is_bcd(b) && cin <= 1 && d == (256 + a - b - cin) % 256 && h == (a % 16 < b
            % 16 + cin) && c == (a < b + cin)) ==> (is_bcd(
            ((256 + d - daa_adjustment(d, true, h, c)) % 256) as u8,
        ) && bcd_value(((256 + d - daa_adjustment(d, true, h, c)) % 256) as u8) == (100
            + bcd_value(a) - bcd_value(b) - cin) % 100 && c == (bcd_value(a) < bcd_value(b)
            + cin)),
{
}

/// Decimal adjustment does what it is for: after the addition of two bytes
/// that each hold two decimal digits, it leaves the two low digits of the
/// decimal sum, and the carry flag says whether the sum went past 99.
pub proof fn lemma_daa_after_add(a: u8, b: u8, carry: bool)
    requires
        is_bcd(a),
        is_bcd(b),
    ensures
        ({
            let (sum, flags) = add8_spec(a, b, carry);
            let (adjusted, after) = daa_spec(sum, flags);
            let total = bcd_value(a) + bcd_value(b) + bit(carry);
            &&& is_bcd(adjusted)
            &&& bcd_value(adjusted) == total % 100
            &&& after == Flags { z: total % 100 == 0, n: false, h: false, c: total >= 100 }
        }),
{
    let (sum, flags) = add8_spec(a, b, carry);
    let cin: u8 = if carry {
        1
    } else {
        0
    };
    lemma_decimal_sum(a, b, cin, sum, flags.h, flags.c);
    let adjusted = daa_spec(sum, flags).0;
    assert(adjusted == ((sum + daa_adjustment(sum, false, flags.h, flags.c)) % 256) as u8);
    assert(bcd_value(adjusted) == 0 <==> adjusted == 0);
}

/// After the subtraction of two bytes that each hold two decimal digits,
/// decimal adjustment leaves the two low digits of the decimal difference,
/// and the carry flag says whether the difference went below zero.
pub proof fn lemma_daa_after_sub(a: u8, b: u8, carry: bool)
    requires
        is_bcd(a),
        is_bcd(b),
    ensures
        ({
            let (diff, flags) = sub8_spec(a, b, carry);
            let (adjusted, after) = daa_spec(diff, flags);
            let total = bcd_value(a) - bcd_value(b) - bit(carry);
            &&& is_bcd(adjusted)
            &&& bcd_value(adjusted) == total % 100
            &&& after == Flags { z: total % 100 == 0, n: true, h: false, c: total < 0 }
        }),
{
    let (diff, flags) = sub8_spec(a, b, carry);
    let cin: u8 = if carry {
        1
    } else {
        0
    };
    lemma_mod_add_multiples_vanish(a - b - cin, 256);
    assert(diff == (256 + a - b - cin) % 256);
    lemma_decimal_difference(a, b, cin, diff, flags.h, flags.c);
    let adjust = daa_adjustment(diff, true, flags.h, flags.c);
    let adjusted = daa_spec(diff, flags).0;
    lemma_mod_add_multiples_vanish(diff - adjust, 256);
    assert(adjusted == ((256 + diff - adjust) % 256) as u8);
    let total = bcd_value(a) - bcd_value(b) - bit(carry);
    lemma_mod_add_multiples_vanish(total, 100);
    assert(bcd_value(adjusted) == 0 <==> adjusted == 0);
}

/// Increment and decrement undo each other and never touch the carry flag.
pub proof fn lemma_inc_dec(value: u8, flags: Flags)
    ensures
        inc8_spec(value, flags).1.c == flags.c,
        dec8_spec(value, flags).1.c == flags.c,
        dec8_spec(inc8_spec(value, flags).0, flags).0 == value,
        inc8_spec(dec8_spec(value, flags).0, flags).0 == value,
{
}

proof fn lemma_there_and_back(a: u8, b: u8, cin: u8)
    by (bit_vector)
    ensures
        cin <= 1 ==> (256 + (a + b + cin) % 256 - b - cin) % 256 == a && ((256 + a - b - cin) % 256
            + b + cin) % 256 == a && ((256 + a - b) % 256 == 0) == (a == b),
{
}

/// Subtraction undoes addition, and a compare is zero exactly on equal
/// bytes and carries exactly when the accumulator is the smaller.
pub proof fn lemma_add_sub(a: u8, b: u8, carry: bool)
    ensures
        sub8_spec(add8_spec(a, b, carry).0, b, carry).0 == a,
        add8_spec(sub8_spec(a, b, carry).0, b, carry).0 == a,
        alu_spec(AluOp::Cp, a, b, carry).1.z <==> a == b,
        alu_spec(AluOp::Cp, a, b, carry).1.c <==> a < b,
{
    let cin: u8 = if carry {
        1
    } else {
        0
    };
    lemma_there_and_back(a, b, cin);
    let sum = add8_spec(a, b, carry).0;
    lemma_mod_add_multiples_vanish(sum - b - cin, 256);
    lemma_mod_add_multiples_vanish(a - b - cin, 256);
    lemma_mod_add_multiples_vanish(a - b, 256);
}

proof fn lemma_one_bit(index: u8, other: u8, value: u8)
    by (bit_vector)
    ensures
        ((value | (1u8 << (index % 8))) & (1u8 << (other % 8)) != 0) == (other % 8 == index % 8 || value
            & (1u8 << (other % 8)) != 0),
        ((value & !(1u8 << (index % 8))) & (1u8 << (other % 8)) != 0) == (other % 8 != index % 8
            && value & (1u8 << (other % 8)) != 0),
{
}

/// Setting a bit sets that bit and clearing a bit clears it; either leaves
/// the other seven bits as they were.
pub proof fn lemma_set_and_reset_touch_one_bit(index: u8, other: u8, value: u8)
    ensures
        bit_is_set(other, bit_set_spec(index, value)) == (other % 8 == index % 8 || bit_is_set(
            other,
            value,
        )),
        bit_is_set(other, bit_reset_spec(index, value)) == (other % 8 != index % 8 && bit_is_set(
            other,
            value,
        )),
{
    lemma_one_bit(index, other, value);
}

/// A byte rotated left by one bit.
pub open spec fn rotated_left(value: u8) -> int {
    value * 2 % 256 + value / 128
}

/// A byte rotated right by one bit.
pub open spec fn rotated_right(value: u8) -> int {
    value / 2 + 128 * (value % 2)
}

/// A byte with its nibbles exchanged.
pub open spec fn swapped(value: u8) -> int {
    value % 16 * 16 + value / 16
}

proof fn lemma_rotate_back(value: u8, cin: u8)
    by (bit_vector)
    ensures
        cin <= 1 ==> rotated_right(rotated_left(value) as u8) == value && rotated_left(
            rotated_right(value) as u8,
        ) == value && swapped(swapped(value) as u8) == value && (value * 2 % 256 + cin) / 2 + 128
            * (value / 128) == value && (value * 2 % 256 + cin) % 2 == cin && rotated_left(value)
            < 256 && rotated_right(value) < 256 && swapped(value) < 256 && value * 2 % 256 + cin
            < 256,
{
}

/// A rotate to the right undoes a rotate to the left, also through the
/// carry, and a swap undoes a swap.
pub proof fn lemma_rotations_undo(value: u8, carry: bool)
    ensures
        rotate_spec(RotOp::Rrc, rotate_spec(RotOp::Rlc, value, carry).0, carry).0 == value,
        rotate_spec(RotOp::Rlc, rotate_spec(RotOp::Rrc, value, carry).0, carry).0 == value,
        rotate_spec(RotOp::Swap, rotate_spec(RotOp::Swap, value, carry).0, carry).0 == value,
        rotate_spec(
            RotOp::Rr,
            rotate_spec(RotOp::Rl, value, carry).0,
            rotate_spec(RotOp::Rl, value, carry).1.c,
        ) == (value, Flags { z: value == 0, n: false, h: false, c: carry }),
{
    let cin: u8 = if carry {
        1
    } else {
        0
    };
    lemma_rotate_back(value, cin);
    assert(rotated(RotOp::Rlc, value, carry).0 == rotated_left(value));
    assert(rotated(RotOp::Rrc, value, carry).0 == rotated_right(value));
    assert(rotated(RotOp::Swap, value, carry).0 == swapped(value));
    assert(rotated(RotOp::Rl, value, carry).0 == value * 2 % 256 + cin);
    assert(rotated(RotOp::Rl, value, carry).1 == (value >= 128));
}

/// The short rotates of the accumulator differ from the long forms in the
/// zero flag only, which they clear.
pub proof fn lemma_accumulator_rotates(op: RotOp, a: u8, carry: bool)
    ensures
        rotate_a_spec(op, a, carry) == (
            rotate_spec(op, a, carry).0,
            Flags { z: false, ..rotate_spec(op, a, carry).1 },
        ),
{
}

} // verus!
