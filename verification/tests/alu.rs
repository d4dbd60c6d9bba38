use sm83::cpu::alu::{
    add16, add8, add_sp, alu, bit_reset, bit_set, bit_test, ccf, cpl, daa, dec8, inc8, offset,
    rotate, rotate_a, scf, sub8, AluOp, RotOp,
};
use sm83::cpu::register_file::Flags;

fn flags(z: bool, n: bool, h: bool, c: bool) -> Flags {
    Flags { z, n, h, c }
}

#[test]
fn add_carries_out_of_both_nibbles() {
    assert_eq!(add8(0xFF, 0x01, false), (0x00, flags(true, false, true, true)));
    assert_eq!(add8(0x0F, 0x01, false), (0x10, flags(false, false, true, false)));
    assert_eq!(add8(0xF0, 0x10, false), (0x00, flags(true, false, false, true)));
    assert_eq!(add8(0x12, 0x34, false), (0x46, flags(false, false, false, false)));
}

#[test]
fn add_with_carry_counts_the_carry_in_both_nibbles() {
    assert_eq!(add8(0x0F, 0x00, true), (0x10, flags(false, false, true, false)));
    assert_eq!(add8(0xFF, 0x00, true), (0x00, flags(true, false, true, true)));
    assert_eq!(add8(0xFF, 0xFF, true), (0xFF, flags(false, false, true, true)));
    assert_eq!(alu(AluOp::Adc, 0x01, 0x01, true), (0x03, flags(false, false, false, false)));
    assert_eq!(alu(AluOp::Add, 0x01, 0x01, true), (0x02, flags(false, false, false, false)));
}

#[test]
fn sub_borrows_into_both_nibbles() {
    assert_eq!(sub8(0x00, 0x01, false), (0xFF, flags(false, true, true, true)));
    assert_eq!(sub8(0x10, 0x01, false), (0x0F, flags(false, true, true, false)));
    assert_eq!(sub8(0x42, 0x42, false), (0x00, flags(true, true, false, false)));
    assert_eq!(sub8(0x10, 0x20, false), (0xF0, flags(false, true, false, true)));
}

#[test]
fn sub_with_carry_counts_the_carry_in_both_nibbles() {
    assert_eq!(sub8(0x10, 0x0F, true), (0x00, flags(true, true, true, false)));
    assert_eq!(sub8(0x00, 0xFF, true), (0x00, flags(true, true, true, true)));
    assert_eq!(alu(AluOp::Sbc, 0x05, 0x02, true), (0x02, flags(false, true, false, false)));
    assert_eq!(alu(AluOp::Sub, 0x05, 0x02, true), (0x03, flags(false, true, false, false)));
}

#[test]
fn compare_subtracts_and_keeps_the_accumulator() {
    assert_eq!(alu(AluOp::Cp, 0x42, 0x42, false), (0x42, flags(true, true, false, false)));
    assert_eq!(alu(AluOp::Cp, 0x00, 0x01, true), (0x00, flags(false, true, true, true)));
}

#[test]
fn logic_sets_half_carry_for_and_only() {
    assert_eq!(alu(AluOp::And, 0xF0, 0x0F, true), (0x00, flags(true, false, true, false)));
    assert_eq!(alu(AluOp::And, 0xFF, 0x81, true), (0x81, flags(false, false, true, false)));
    assert_eq!(alu(AluOp::Or, 0xF0, 0x0F, true), (0xFF, flags(false, false, false, false)));
    assert_eq!(alu(AluOp::Or, 0x00, 0x00, true), (0x00, flags(true, false, false, false)));
    assert_eq!(alu(AluOp::Xor, 0xFF, 0xFF, true), (0x00, flags(true, false, false, false)));
    assert_eq!(alu(AluOp::Xor, 0xF0, 0xFF, true), (0x0F, flags(false, false, false, false)));
}

#[test]
fn increment_and_decrement_leave_the_carry() {
    for carry in [false, true] {
        let before = flags(false, true, false, carry);
        assert_eq!(inc8(0xFF, before), (0x00, flags(true, false, true, carry)));
        assert_eq!(inc8(0x0F, before), (0x10, flags(false, false, true, carry)));
        assert_eq!(inc8(0x41, before), (0x42, flags(false, false, false, carry)));
        assert_eq!(dec8(0x00, before), (0xFF, flags(false, true, true, carry)));
        assert_eq!(dec8(0x01, before), (0x00, flags(true, true, false, carry)));
        assert_eq!(dec8(0x10, before), (0x0F, flags(false, true, true, carry)));
    }
}

#[test]
fn decimal_adjust_after_adding_decimal_digits() {
    let (sum, after_add) = add8(0x15, 0x27, false);
    assert_eq!(sum, 0x3C);
    assert_eq!(daa(sum, after_add), (0x42, flags(false, false, false, false)));

    let (sum, after_add) = add8(0x99, 0x01, false);
    assert_eq!(sum, 0x9A);
    assert_eq!(daa(sum, after_add), (0x00, flags(true, false, false, true)));

    let (sum, after_add) = add8(0x08, 0x08, false);
    assert_eq!((sum, after_add.h), (0x10, true));
    assert_eq!(daa(sum, after_add), (0x16, flags(false, false, false, false)));

    let (sum, after_add) = add8(0x90, 0x90, false);
    assert_eq!((sum, after_add.c), (0x20, true));
    assert_eq!(daa(sum, after_add), (0x80, flags(false, false, false, true)));
}

#[test]
fn decimal_adjust_after_subtracting_decimal_digits() {
    let (diff, after_sub) = sub8(0x42, 0x15, false);
    assert_eq!(diff, 0x2D);
    assert_eq!(daa(diff, after_sub), (0x27, flags(false, true, false, false)));

    let (diff, after_sub) = sub8(0x10, 0x20, false);
    assert_eq!(diff, 0xF0);
    assert_eq!(daa(diff, after_sub), (0x90, flags(false, true, false, true)));

    let (diff, after_sub) = sub8(0x00, 0x01, false);
    assert_eq!(diff, 0xFF);
    assert_eq!(daa(diff, after_sub), (0x99, flags(false, true, false, true)));
}

#[test]
fn decimal_adjust_corrects_once_for_a_half_carry() {
    // 0x0F is no decimal digit, so the sum is not decimal either: the half
    // carry calls for one correction of the low digit, the digit itself
    // (8) for none, and the byte (0x18) for none of the high digit.
    let (sum, after_add) = add8(0x09, 0x0F, false);
    assert_eq!(sum, 0x18);
    assert_eq!(after_add, flags(false, false, true, false));
    let (adjusted, after) = daa(sum, after_add);
    assert_eq!(adjusted, 0x1E);
    assert!(!after.c);
    assert!(!after.h);
    assert!(!after.z);
}

#[test]
fn decimal_adjust_goes_by_the_flags_it_finds() {
    assert_eq!(daa(0x00, flags(false, false, false, false)), (0x00, flags(true, false, false, false)));
    assert_eq!(daa(0x0A, flags(false, false, false, false)), (0x10, flags(false, false, false, false)));
    assert_eq!(daa(0xA0, flags(false, false, false, false)), (0x00, flags(true, false, false, true)));
    assert_eq!(daa(0x00, flags(false, false, true, true)), (0x66, flags(false, false, false, true)));
    assert_eq!(daa(0x00, flags(false, true, true, false)), (0xFA, flags(false, true, false, false)));
    assert_eq!(daa(0x00, flags(false, true, false, true)), (0xA0, flags(false, true, false, true)));
    assert_eq!(daa(0x00, flags(false, true, true, true)), (0x9A, flags(false, true, false, true)));
    assert_eq!(daa(0x9A, flags(false, true, false, false)), (0x9A, flags(false, true, false, false)));
}

#[test]
fn complement_and_carry_flag_operations() {
    assert_eq!(cpl(0x35, flags(true, false, false, true)), (0xCA, flags(true, true, true, true)));
    assert_eq!(cpl(0xFF, flags(false, false, false, false)), (0x00, flags(false, true, true, false)));
    assert_eq!(ccf(flags(true, true, true, true)), flags(true, false, false, false));
    assert_eq!(ccf(flags(false, true, true, false)), flags(false, false, false, true));
    assert_eq!(scf(flags(true, true, true, false)), flags(true, false, false, true));
}

#[test]
fn rotates_and_shifts() {
    assert_eq!(rotate(RotOp::Rlc, 0x85, false), (0x0B, flags(false, false, false, true)));
    assert_eq!(rotate(RotOp::Rlc, 0x00, true), (0x00, flags(true, false, false, false)));
    assert_eq!(rotate(RotOp::Rrc, 0x01, false), (0x80, flags(false, false, false, true)));
    assert_eq!(rotate(RotOp::Rl, 0x80, false), (0x00, flags(true, false, false, true)));
    assert_eq!(rotate(RotOp::Rl, 0x11, true), (0x23, flags(false, false, false, false)));
    assert_eq!(rotate(RotOp::Rr, 0x01, false), (0x00, flags(true, false, false, true)));
    assert_eq!(rotate(RotOp::Rr, 0x8A, true), (0xC5, flags(false, false, false, false)));
    assert_eq!(rotate(RotOp::Sla, 0xFF, false), (0xFE, flags(false, false, false, true)));
    assert_eq!(rotate(RotOp::Sla, 0x80, true), (0x00, flags(true, false, false, true)));
    assert_eq!(rotate(RotOp::Sra, 0x8A, false), (0xC5, flags(false, false, false, false)));
    assert_eq!(rotate(RotOp::Sra, 0x01, false), (0x00, flags(true, false, false, true)));
    assert_eq!(rotate(RotOp::Srl, 0xFF, false), (0x7F, flags(false, false, false, true)));
    assert_eq!(rotate(RotOp::Srl, 0x01, true), (0x00, flags(true, false, false, true)));
    assert_eq!(rotate(RotOp::Swap, 0xF1, true), (0x1F, flags(false, false, false, false)));
    assert_eq!(rotate(RotOp::Swap, 0x00, true), (0x00, flags(true, false, false, false)));
}

#[test]
fn accumulator_rotates_always_clear_zero() {
    assert_eq!(rotate_a(RotOp::Rlc, 0x00, true), (0x00, flags(false, false, false, false)));
    assert_eq!(rotate_a(RotOp::Rl, 0x80, false), (0x00, flags(false, false, false, true)));
    assert_eq!(rotate_a(RotOp::Rrc, 0x3B, false), (0x9D, flags(false, false, false, true)));
    assert_eq!(rotate_a(RotOp::Rr, 0x81, false), (0x40, flags(false, false, false, true)));
}

#[test]
fn bit_operations_touch_one_bit() {
    for index in 0..8u8 {
        assert_eq!(bit_set(index, 0x00), 1 << index);
        assert_eq!(bit_reset(index, 0xFF), !(1u8 << index));
        assert_eq!(bit_set(index, 0xFF), 0xFF);
        assert_eq!(bit_reset(index, 0x00), 0x00);
        for carry in [false, true] {
            let before = flags(false, true, false, carry);
            assert_eq!(bit_test(index, 1 << index, before), flags(false, false, true, carry));
            assert_eq!(bit_test(index, !(1u8 << index), before), flags(true, false, true, carry));
        }
    }
}

#[test]
fn sixteen_bit_add_carries_out_of_bits_11_and_15() {
    let keep = flags(true, true, false, false);
    assert_eq!(add16(0x0FFF, 0x0001, keep), (0x1000, flags(true, false, true, false)));
    assert_eq!(add16(0xFFFF, 0x0001, keep), (0x0000, flags(true, false, true, true)));
    assert_eq!(add16(0x8000, 0x8000, keep), (0x0000, flags(true, false, false, true)));
    assert_eq!(
        add16(0x1234, 0x1111, flags(false, true, true, true)),
        (0x2345, flags(false, false, false, false))
    );
}

#[test]
fn stack_pointer_displacement_takes_flags_from_the_low_byte() {
    assert_eq!(add_sp(0x0005, 0xFF), (0x0004, flags(false, false, true, true)));
    assert_eq!(add_sp(0x0000, 0xFF), (0xFFFF, flags(false, false, false, false)));
    assert_eq!(add_sp(0xFFFF, 0x01), (0x0000, flags(false, false, true, true)));
    assert_eq!(add_sp(0x00F0, 0x10), (0x0100, flags(false, false, false, true)));
    assert_eq!(add_sp(0x000F, 0x01), (0x0010, flags(false, false, true, false)));
    assert_eq!(add_sp(0x1000, 0x80), (0x0F80, flags(false, false, false, false)));
}

#[test]
fn offset_moves_both_ways_and_wraps() {
    assert_eq!(offset(0x0102, 0x05), 0x0107);
    assert_eq!(offset(0x0102, 0xFE), 0x0100);
    assert_eq!(offset(0x0000, 0x80), 0xFF80);
    assert_eq!(offset(0xFFFF, 0x7F), 0x007E);
    assert_eq!(offset(0x1234, 0x00), 0x1234);
}
