//! The arithmetic-logic unit on concrete values.

use cpu_core::alu::{
    add, add_hl, and, apply, cp, dec_16bit, dec_8bit, inc_16bit, inc_8bit, or, sbc, sub, xor, AluOp,
};
use cpu_core::flags::Flags;

fn flags(zero: bool, subtract: bool, half_carry: bool, carry: bool) -> Flags {
    Flags { zero, subtract, half_carry, carry }
}

#[test]
fn add_matches_the_sum_for_every_pair() {
    for a in 0..=255u8 {
        for b in 0..=255u8 {
            let (value, f) = add(a, b, false);
            let sum = a as u16 + b as u16;
            assert_eq!(value as u16, sum % 256);
            assert_eq!(f.carry, sum > 255);
            assert_eq!(f.half_carry, (a & 0xF) + (b & 0xF) > 0xF);
            assert_eq!(f.zero, value == 0);
            assert!(!f.subtract);
        }
    }
}

#[test]
fn add_half_carry_out_of_the_low_nibble() {
    let (value, f) = add(0x0F, 0x01, false);
    assert_eq!(value, 0x10);
    assert_eq!(f, flags(false, false, true, false));
}

#[test]
fn add_wraps_to_zero_with_carry() {
    let (value, f) = add(0xFF, 0x01, false);
    assert_eq!(value, 0x00);
    assert_eq!(f, flags(true, false, true, true));
}

#[test]
fn add_with_carry_in_counts_the_carry() {
    let (value, f) = add(0x0F, 0x00, true);
    assert_eq!(value, 0x10);
    assert_eq!(f, flags(false, false, true, false));
    let (value, f) = add(0xFF, 0xFF, true);
    assert_eq!(value, 0xFF);
    assert_eq!(f, flags(false, false, true, true));
    let (value, f) = add(0x7F, 0x80, true);
    assert_eq!(value, 0x00);
    assert_eq!(f, flags(true, false, true, true));
}

#[test]
fn sub_sets_borrow_flags() {
    let (value, f) = sub(0x10, 0x01);
    assert_eq!(value, 0x0F);
    assert_eq!(f, flags(false, true, true, false));
    let (value, f) = sub(0x00, 0x01);
    assert_eq!(value, 0xFF);
    assert_eq!(f, flags(false, true, true, true));
    let (value, f) = sub(0x42, 0x42);
    assert_eq!(value, 0x00);
    assert_eq!(f, flags(true, true, false, false));
}

#[test]
fn sbc_counts_the_borrow_in() {
    let (value, f) = sbc(0x10, 0x0F, true);
    assert_eq!(value, 0x00);
    assert_eq!(f, flags(true, true, true, false));
    let (value, f) = sbc(0x00, 0x00, true);
    assert_eq!(value, 0xFF);
    assert_eq!(f, flags(false, true, true, true));
    let (value, f) = sbc(0x05, 0x02, false);
    assert_eq!(value, 0x03);
    assert_eq!(f, flags(false, true, false, false));
}

#[test]
fn sbc_matches_the_difference_for_every_pair() {
    for a in 0..=255u8 {
        for b in 0..=255u8 {
            for c in [false, true] {
                let (value, f) = sbc(a, b, c);
                let difference = a as i32 - b as i32 - c as i32;
                assert_eq!(value as i32, difference.rem_euclid(256));
                assert_eq!(f.carry, difference < 0);
                assert_eq!(f.half_carry, ((a & 0xF) as i32) < (b & 0xF) as i32 + c as i32);
                assert_eq!(f.zero, value == 0);
                assert!(f.subtract);
            }
        }
    }
}

#[test]
fn logic_operations_set_their_flags() {
    assert_eq!(and(0xF0, 0x3C), (0x30, flags(false, false, true, false)));
    assert_eq!(and(0xF0, 0x0F), (0x00, flags(true, false, true, false)));
    assert_eq!(or(0xF0, 0x0F), (0xFF, flags(false, false, false, false)));
    assert_eq!(or(0x00, 0x00), (0x00, flags(true, false, false, false)));
    assert_eq!(xor(0xFF, 0x0F), (0xF0, flags(false, false, false, false)));
    assert_eq!(xor(0x5A, 0x5A), (0x00, flags(true, false, false, false)));
}

#[test]
fn and_with_itself_keeps_every_value() {
    for a in 0..=255u8 {
        assert_eq!(and(a, a), (a, flags(a == 0, false, true, false)));
    }
}

#[test]
fn cp_is_zero_on_equal_and_carry_on_smaller() {
    for a in 0..=255u8 {
        for b in 0..=255u8 {
            let f = cp(a, b);
            assert_eq!(f.zero, a == b);
            assert_eq!(f.carry, a < b);
            assert!(f.subtract);
            assert_eq!(f, sub(a, b).1);
        }
    }
}

#[test]
fn inc_8bit_wraps_and_keeps_the_carry() {
    for carry in [false, true] {
        let before = flags(false, true, false, carry);
        let (value, f) = inc_8bit(0xFF, before);
        assert_eq!(value, 0x00);
        assert_eq!(f, flags(true, false, true, carry));
        let (value, f) = inc_8bit(0x0F, before);
        assert_eq!(value, 0x10);
        assert_eq!(f, flags(false, false, true, carry));
        let (value, f) = inc_8bit(0x41, before);
        assert_eq!(value, 0x42);
        assert_eq!(f, flags(false, false, false, carry));
    }
}

#[test]
fn dec_8bit_wraps_and_keeps_the_carry() {
    for carry in [false, true] {
        let before = flags(true, false, false, carry);
        let (value, f) = dec_8bit(0x00, before);
        assert_eq!(value, 0xFF);
        assert_eq!(f, flags(false, true, true, carry));
        let (value, f) = dec_8bit(0x01, before);
        assert_eq!(value, 0x00);
        assert_eq!(f, flags(true, true, false, carry));
        let (value, f) = dec_8bit(0x10, before);
        assert_eq!(value, 0x0F);
        assert_eq!(f, flags(false, true, true, carry));
    }
}

#[test]
fn sixteen_bit_increment_and_decrement_wrap() {
    assert_eq!(inc_16bit(0xFFFF), 0x0000);
    assert_eq!(inc_16bit(0x00FF), 0x0100);
    assert_eq!(dec_16bit(0x0000), 0xFFFF);
    assert_eq!(dec_16bit(0x0100), 0x00FF);
}

#[test]
fn add_hl_leaves_the_zero_flag_alone() {
    for zero in [false, true] {
        let before = flags(zero, true, false, false);
        let (value, f) = add_hl(0x0FFF, 0x0001, before);
        assert_eq!(value, 0x1000);
        assert_eq!(f, flags(zero, false, true, false));
        let (value, f) = add_hl(0xFFFF, 0x0001, before);
        assert_eq!(value, 0x0000);
        assert_eq!(f, flags(zero, false, true, true));
        let (value, f) = add_hl(0x8000, 0x8000, before);
        assert_eq!(value, 0x0000);
        assert_eq!(f, flags(zero, false, false, true));
        let (value, f) = add_hl(0x07FF, 0x0001, before);
        assert_eq!(value, 0x0800);
        assert_eq!(f, flags(zero, false, false, false));
    }
}

#[test]
fn apply_takes_the_carry_from_the_flags() {
    let set = flags(false, false, false, true);
    let clear = flags(false, false, false, false);
    assert_eq!(apply(AluOp::Add, 0x01, 0x01, set).0, 0x02);
    assert_eq!(apply(AluOp::Adc, 0x01, 0x01, set).0, 0x03);
    assert_eq!(apply(AluOp::Adc, 0x01, 0x01, clear).0, 0x02);
    assert_eq!(apply(AluOp::Sub, 0x05, 0x01, set).0, 0x04);
    assert_eq!(apply(AluOp::Sbc, 0x05, 0x01, set).0, 0x03);
    assert_eq!(apply(AluOp::Sbc, 0x05, 0x01, clear).0, 0x04);
    assert_eq!(apply(AluOp::And, 0x0C, 0x0A, set), and(0x0C, 0x0A));
    assert_eq!(apply(AluOp::Xor, 0x0C, 0x0A, set), xor(0x0C, 0x0A));
    assert_eq!(apply(AluOp::Or, 0x0C, 0x0A, set), or(0x0C, 0x0A));
    assert_eq!(apply(AluOp::Cp, 0x05, 0x06, set), (0x05, cp(0x05, 0x06)));
}
