//! The bit, shift and rotate unit: pure functions on one byte. A rotation
//! or shift is stated as arithmetic on the byte's value (doubling, halving,
//! the bit that leaves), a bit operation over the weight of the bit.

use vstd::prelude::*;
use crate::alu::carry_value;
use crate::flags::Flags;

verus! {

/// The position of a bit in a byte, counted from the least significant.
#[derive(Clone, Copy, Debug, PartialEq, Eq, Structural)]
pub enum BitPosition {
    B0,
    B1,
    B2,
    B3,
    B4,
    B5,
    B6,
    B7,
}

/// A rotation or shift of one byte.
#[derive(Clone, Copy, Debug, PartialEq, Eq, Structural)]
pub enum ShiftOp {
    /// Rotate left; bit 7 moves to bit 0.
    Rlc,
    /// Rotate right; bit 0 moves to bit 7.
    Rrc,
    /// Rotate left through the carry flag.
    Rl,
    /// Rotate right through the carry flag.
    Rr,
    /// Shift left; bit 0 becomes zero.
    Sla,
    /// Shift right; bit 7 keeps its value.
    Sra,
    /// Exchange the high and low four bits.
    Swap,
    /// Shift right; bit 7 becomes zero.
    Srl,
}

impl BitPosition {
    /// The number of the position, 0 to 7.
    pub open spec fn number(self) -> int {
        match self {
            BitPosition::B0 => 0,
            BitPosition::B1 => 1,
            BitPosition::B2 => 2,
            BitPosition::B3 => 3,
            BitPosition::B4 => 4,
            BitPosition::B5 => 5,
            BitPosition::B6 => 6,
            BitPosition::B7 => 7,
        }
    }

    /// The weight of the bit: 2 to the power of its number.
    pub open spec fn weight(self) -> int {
        match self {
            BitPosition::B0 => 1,
            BitPosition::B1 => 2,
            BitPosition::B2 => 4,
            BitPosition::B3 => 8,
            BitPosition::B4 => 16,
            BitPosition::B5 => 32,
            BitPosition::B6 => 64,
            BitPosition::B7 => 128,
        }
    }

    /// The position with the given number, if the number is below 8.
    pub fn from_index(index: u8) -> (position: Option<BitPosition>)
        ensures
            index < 8 <==> position is Some,
            position matches Some(p) ==> p.number() == index,
    {
        match index {
            0 => Some(BitPosition::B0),
            1 => Some(BitPosition::B1),
            2 => Some(BitPosition::B2),
            3 => Some(BitPosition::B3),
            4 => Some(BitPosition::B4),
            5 => Some(BitPosition::B5),
            6 => Some(BitPosition::B6),
            7 => Some(BitPosition::B7),
            _ => None,
        }
    }

    /// The number of the position.
    pub fn index(self) -> (index: u8)
        ensures
            index == self.number(),
    {
        match self {
            BitPosition::B0 => 0,
            BitPosition::B1 => 1,
            BitPosition::B2 => 2,
            BitPosition::B3 => 3,
            BitPosition::B4 => 4,
            BitPosition::B5 => 5,
            BitPosition::B6 => 6,
            BitPosition::B7 => 7,
        }
    }

    /// The byte in which only this bit is set.
    pub fn mask(self) -> (mask: u8)
        ensures
            mask == self.weight(),
    {
        match self {
            BitPosition::B0 => 0x01,
            BitPosition::B1 => 0x02,
            BitPosition::B2 => 0x04,
            BitPosition::B3 => 0x08,
            BitPosition::B4 => 0x10,
            BitPosition::B5 => 0x20,
            BitPosition::B6 => 0x40,
            BitPosition::B7 => 0x80,
        }
    }
}

/// Whether the bit at `position` of `value` is set.
pub open spec fn bit_of(value: u8, position: BitPosition) -> bool {
    (value as int / position.weight()) % 2 == 1
}

/// The flags after a rotation, shift or swap: Z as given, N and H clear,
/// C the bit that left the byte.
pub open spec fn shifted_flags(zero: bool, carry: bool) -> Flags {
    Flags { zero, subtract: false, half_carry: false, carry }
}

/// Rotate left by one bit: every bit moves up, bit 7 moves to bit 0 and
/// into the carry. Z is set only where `set_zero` holds and the result is
/// zero.
pub open spec fn rotate_left_circular_result(value: u8, set_zero: bool) -> (u8, Flags) {
    let rotated = (value * 2) % 256 + value / 128;
    ((rotated as u8), shifted_flags(set_zero && rotated == 0, value >= 128))
}

/// Rotate left by one bit through the carry: every bit moves up, the
/// carry comes in at bit 0 and bit 7 leaves into the carry.
pub open spec fn rotate_left_result(value: u8, carry_in: bool, set_zero: bool) -> (u8, Flags) {
    let rotated = (value * 2) % 256 + carry_value(carry_in);
    ((rotated as u8), shifted_flags(set_zero && rotated == 0, value >= 128))
}

/// Rotate right by one bit: every bit moves down, bit 0 moves to bit 7 and
/// into the carry.
pub open spec fn rotate_right_circular_result(value: u8, set_zero: bool) -> (u8, Flags) {
    let rotated = value / 2 + (value % 2) * 128;
    ((rotated as u8), shifted_flags(set_zero && rotated == 0, value % 2 == 1))
}

/// Rotate right by one bit through the carry: every bit moves down, the
/// carry comes in at bit 7 and bit 0 leaves into the carry.
pub open spec fn rotate_right_result(value: u8, carry_in: bool, set_zero: bool) -> (u8, Flags) {
    let rotated = value / 2 + carry_value(carry_in) * 128;
    ((rotated as u8), shifted_flags(set_zero && rotated == 0, value % 2 == 1))
}

/// Shift left by one bit: bit 0 becomes zero, bit 7 leaves into the carry.
pub open spec fn shift_left_arithmetic_result(value: u8) -> (u8, Flags) {
    let shifted = (value * 2) % 256;
    ((shifted as u8), shifted_flags(shifted == 0, value >= 128))
}

/// Shift right by one bit: bit 7 becomes zero, bit 0 leaves into the carry.
pub open spec fn shift_right_logical_result(value: u8) -> (u8, Flags) {
    let shifted = value / 2;
    ((shifted as u8), shifted_flags(shifted == 0, value % 2 == 1))
}

/// Shift right by one bit, keeping the sign: bit 7 stays as it was, bit 0
/// leaves into the carry.
pub open spec fn shift_right_arithmetic_result(value: u8) -> (u8, Flags) {
    let shifted = value / 2 + (value / 128) * 128;
    ((shifted as u8), shifted_flags(shifted == 0, value % 2 == 1))
}

/// Exchange the two halves of the byte. The carry is cleared.
pub open spec fn swap_result(value: u8) -> (u8, Flags) {
    let swapped = (value % 16) * 16 + value / 16;
    ((swapped as u8), shifted_flags(swapped == 0, false))
}

/// What `op` makes of `value`, with Z computed from the result. Only the
/// rotations through carry read the flags before.
pub open spec fn shift_result(op: ShiftOp, value: u8, flags: Flags) -> (u8, Flags) {
    match op {
        ShiftOp::Rlc => rotate_left_circular_result(value, true),
        ShiftOp::Rrc => rotate_right_circular_result(value, true),
        ShiftOp::Rl => rotate_left_result(value, flags.carry, true),
        ShiftOp::Rr => rotate_right_result(value, flags.carry, true),
        ShiftOp::Sla => shift_left_arithmetic_result(value),
        ShiftOp::Sra => shift_right_arithmetic_result(value),
        ShiftOp::Swap => swap_result(value),
        ShiftOp::Srl => shift_right_logical_result(value),
    }
}

/// The flags after testing a bit: Z if the bit is clear, N clear, H set,
/// C as it was.
pub open spec fn test_bit_result(value: u8, position: BitPosition, flags: Flags) -> Flags {
    Flags {
        zero: !bit_of(value, position),
        subtract: false,
        half_carry: true,
        carry: flags.carry,
    }
}

/// `value` with the bit at `position` set.
pub open spec fn set_bit_result(value: u8, position: BitPosition) -> u8 {
    if bit_of(value, position) {
        value
    } else {
        (value + position.weight()) as u8
    }
}

/// `value` with the bit at `position` clear.
pub open spec fn reset_bit_result(value: u8, position: BitPosition) -> u8 {
    if bit_of(value, position) {
        (value - position.weight()) as u8
    } else {
        value
    }
}

/// The flags after setting the carry: Z, N and H clear, C set.
pub open spec fn scf_result(flags: Flags) -> Flags {
    Flags { zero: false, subtract: false, half_carry: false, carry: true }
}

/// The flags after complementing the carry: Z clear, C inverted, N and H
/// as they were.
pub open spec fn ccf_result(flags: Flags) -> Flags {
    Flags { zero: false, carry: !flags.carry, ..flags }
}

/// The complement of the accumulator, with Z clear and N, H and C as they
/// were.
pub open spec fn cpl_result(a: u8, flags: Flags) -> (u8, Flags) {
    ((255 - a) as u8, Flags { zero: false, ..flags })
}

/// Shifts, masks and ors of one byte as arithmetic on its value. `carry`
/// is a carry as a byte, 0 or 1.
proof fn lemma_shift_bits(value: u8, carry: u8)
    by (bit_vector)
    requires
        carry <= 1,
    ensures
        ({
            &&& ((value << 1) | (value >> 7)) == (value * 2) % 256 + value / 128
            &&& ((value << 1) | carry) == (value * 2) % 256 + carry
            &&& ((value >> 1) | (value << 7)) == value / 2 + (value % 2) * 128
            &&& ((carry << 7) | (value >> 1)) == value / 2 + carry * 128
            &&& (value << 1) == (value * 2) % 256
            &&& (value >> 1) == value / 2
            &&& ((value >> 1) | (value & 0x80)) == value / 2 + (value / 128) * 128
            &&& ((value >> 4) | (value << 4)) == (value % 16) * 16 + value / 16
            &&& (value & 0x80 == 0x80) == (value >= 128)
            &&& (value & 1 == 1) == (value % 2 == 1)
            &&& (value >> 7) == value / 128
            &&& (value & 1) == value % 2
            &&& !value == 255 - value
        }),
{
}

/// Testing, setting and clearing the one bit of `mask` as arithmetic on
/// the value of the byte.
proof fn lemma_mask_bits(value: u8, mask: u8)
    by (bit_vector)
    requires
        mask == 1 || mask == 2 || mask == 4 || mask == 8 || mask == 16 || mask == 32 || mask == 64
            || mask == 128,
    ensures
        ({
            &&& (value & mask != 0) == ((value / mask) % 2 == 1)
            &&& (value | mask) == (if value & mask != 0 {
                value as int
            } else {
                value + mask
            })
            &&& (value & !mask) == (if value & mask != 0 {
                value - mask
            } else {
                value as int
            })
        }),
{
}

/// Rotates `value` left by one bit, bit 7 wrapping round to bit 0.
pub fn rotate_left_circular(value: u8, set_zero: bool) -> (result: (u8, Flags))
    ensures
        result == rotate_left_circular_result(value, set_zero),
{
    proof {
        lemma_shift_bits(value, 0);
    }
    let new_value = (value << 1) | (value >> 7);
    (
        new_value,
        Flags {
            zero: set_zero && new_value == 0,
            subtract: false,
            half_carry: false,
            carry: value & 0x80 == 0x80,
        },
    )
}

/// Rotates `value` left by one bit through the carry.
pub fn rotate_left(value: u8, carry_in: bool, set_zero: bool) -> (result: (u8, Flags))
    ensures
        result == rotate_left_result(value, carry_in, set_zero),
{
    let carry_bit: u8 = if carry_in {
        1
    } else {
        0
    };
    proof {
        lemma_shift_bits(value, carry_bit);
    }
    let new_value = (value << 1) | carry_bit;
    (
        new_value,
        Flags {
            zero: set_zero && new_value == 0,
            subtract: false,
            half_carry: false,
            carry: value & 0x80 == 0x80,
        },
    )
}

/// Rotates `value` right by one bit, bit 0 wrapping round to bit 7.
pub fn rotate_right_circular(value: u8, set_zero: bool) -> (result: (u8, Flags))
    ensures
        result == rotate_right_circular_result(value, set_zero),
{
    proof {
        lemma_shift_bits(value, 0);
    }
    let new_value = (value >> 1) | (value << 7);
    (
        new_value,
        Flags {
            zero: set_zero && new_value == 0,
            subtract: false,
            half_carry: false,
            carry: value & 1 == 1,
        },
    )
}

/// Rotates `value` right by one bit through the carry.
pub fn rotate_right(value: u8, carry_in: bool, set_zero: bool) -> (result: (u8, Flags))
    ensures
        result == rotate_right_result(value, carry_in, set_zero),
{
    let carry_bit: u8 = if carry_in {
        1
    } else {
        0
    };
    proof {
        lemma_shift_bits(value, carry_bit);
    }
    let new_value = (carry_bit << 7) | (value >> 1);
    (
        new_value,
        Flags {
            zero: set_zero && new_value == 0,
            subtract: false,
            half_carry: false,
            carry: value & 1 == 1,
        },
    )
}

/// Shifts `value` left by one bit.
pub fn shift_left_arithmetic(value: u8) -> (result: (u8, Flags))
    ensures
        result == shift_left_arithmetic_result(value),
{
    proof {
        lemma_shift_bits(value, 0);
    }
    let new_value = value << 1;
    (
        new_value,
        Flags {
            zero: new_value == 0,
            subtract: false,
            half_carry: false,
            carry: value & 0x80 == 0x80,
        },
    )
}

/// Shifts `value` right by one bit, filling bit 7 with zero.
pub fn shift_right_logical(value: u8) -> (result: (u8, Flags))
    ensures
        result == shift_right_logical_result(value),
{
    proof {
        lemma_shift_bits(value, 0);
    }
    let new_value = value >> 1;
    (
        new_value,
        Flags { zero: new_value == 0, subtract: false, half_carry: false, carry: value & 1 == 1 },
    )
}

/// Shifts `value` right by one bit, keeping bit 7.
pub fn shift_right_arithmetic(value: u8) -> (result: (u8, Flags))
    ensures
        result == shift_right_arithmetic_result(value),
{
    proof {
        lemma_shift_bits(value, 0);
    }
    let new_value = (value >> 1) | (value & 0x80);
    (
        new_value,
        Flags { zero: new_value == 0, subtract: false, half_carry: false, carry: value & 1 == 1 },
    )
}

/// Exchanges the high and low four bits of `value`.
pub fn swap(value: u8) -> (result: (u8, Flags))
    ensures
        result == swap_result(value),
{
    proof {
        lemma_shift_bits(value, 0);
    }
    let new_value = (value >> 4) | (value << 4);
    (new_value, Flags { zero: new_value == 0, subtract: false, half_carry: false, carry: false })
}

/// Applies `op` to `value`, with Z computed from the result.
pub fn shift(op: ShiftOp, value: u8, flags: Flags) -> (result: (u8, Flags))
    ensures
        result == shift_result(op, value, flags),
{
    match op {
        ShiftOp::Rlc => rotate_left_circular(value, true),
        ShiftOp::Rrc => rotate_right_circular(value, true),
        ShiftOp::Rl => rotate_left(value, flags.carry, true),
        ShiftOp::Rr => rotate_right(value, flags.carry, true),
        ShiftOp::Sla => shift_left_arithmetic(value),
        ShiftOp::Sra => shift_right_arithmetic(value),
        ShiftOp::Swap => swap(value),
        ShiftOp::Srl => shift_right_logical(value),
    }
}

/// Tests the bit at `position` of `value`. H is set whatever the bit is,
/// and the carry flag is not touched.
pub fn test_bit(value: u8, position: BitPosition, flags: Flags) -> (result: Flags)
    ensures
        result == test_bit_result(value, position, flags),
{
    let mask = position.mask();
    proof {
        lemma_mask_bits(value, mask);
    }
    Flags { zero: value & mask == 0, subtract: false, half_carry: true, carry: flags.carry }
}

/// Sets the bit at `position` of `value`. No flag is involved.
pub fn set_bit(value: u8, position: BitPosition) -> (result: u8)
    ensures
        result == set_bit_result(value, position),
{
    let mask = position.mask();
    proof {
        lemma_mask_bits(value, mask);
    }
    value | mask
}

/// Clears the bit at `position` of `value`. No flag is involved.
pub fn reset_bit(value: u8, position: BitPosition) -> (result: u8)
    ensures
        result == reset_bit_result(value, position),
{
    let mask = position.mask();
    proof {
        lemma_mask_bits(value, mask);
    }
    value & !mask
}

/// Sets the carry flag.
pub fn scf(flags: Flags) -> (result: Flags)
    ensures
        result == scf_result(flags),
{
    Flags { zero: false, subtract: false, half_carry: false, carry: true }
}

/// Complements the carry flag.
pub fn ccf(flags: Flags) -> (result: Flags)
    ensures
        result == ccf_result(flags),
{
    Flags {
        zero: false,
        subtract: flags.subtract,
        half_carry: flags.half_carry,
        carry: !flags.carry,
    }
}

/// Complements every bit of the accumulator.
pub fn cpl(a: u8, flags: Flags) -> (result: (u8, Flags))
    ensures
        result == cpl_result(a, flags),
{
    proof {
        lemma_shift_bits(a, 0);
    }
    (
        !a,
        Flags {
            zero: false,
            subtract: flags.subtract,
            half_carry: flags.half_carry,
            carry: flags.carry,
        },
    )
}

/// A byte and a carry after `times` rotations to the left through the
/// carry, each one taking the carry that the one before left.
pub open spec fn rotate_left_times(value: u8, carry: bool, times: nat) -> (u8, bool)
    decreases times,
{
    if times == 0 {
        (value, carry)
    } else {
        let before = rotate_left_times(value, carry, (times - 1) as nat);
        let after = rotate_left_result(before.0, before.1, false);
        (after.0, after.1.carry)
    }
}

/// A byte and a carry after `times` rotations to the right through the
/// carry.
pub open spec fn rotate_right_times(value: u8, carry: bool, times: nat) -> (u8, bool)
    decreases times,
{
    if times == 0 {
        (value, carry)
    } else {
        let before = rotate_right_times(value, carry, (times - 1) as nat);
        let after = rotate_right_result(before.0, before.1, false);
        (after.0, after.1.carry)
    }
}

/// A byte and a carry after `times` circular rotations to the left.
pub open spec fn rotate_left_circular_times(value: u8, carry: bool, times: nat) -> (u8, bool)
    decreases times,
{
    if times == 0 {
        (value, carry)
    } else {
        let before = rotate_left_circular_times(value, carry, (times - 1) as nat);
        let after = rotate_left_circular_result(before.0, false);
        (after.0, after.1.carry)
    }
}

/// A byte and a carry after `times` circular rotations to the right.
pub open spec fn rotate_right_circular_times(value: u8, carry: bool, times: nat) -> (u8, bool)
    decreases times,
{
    if times == 0 {
        (value, carry)
    } else {
        let before = rotate_right_circular_times(value, carry, (times - 1) as nat);
        let after = rotate_right_circular_result(before.0, false);
        (after.0, after.1.carry)
    }
}

/// Eight circular rotations to the left bring every byte back to itself,
/// and the carry they leave is bit 0 of the byte: the last bit to go
/// round.
pub proof fn lemma_rotate_left_circular_eight_times(value: u8, carry: bool)
    ensures
        rotate_left_circular_times(value, carry, 8) == (value, value % 2 == 1),
{
    let v1 = rotate_left_circular_times(value, carry, 1).0;
    let v2 = rotate_left_circular_times(value, carry, 2).0;
    let v3 = rotate_left_circular_times(value, carry, 3).0;
    let v4 = rotate_left_circular_times(value, carry, 4).0;
    let v5 = rotate_left_circular_times(value, carry, 5).0;
    let v6 = rotate_left_circular_times(value, carry, 6).0;
    let v7 = rotate_left_circular_times(value, carry, 7).0;
    let v8 = rotate_left_circular_times(value, carry, 8).0;
    assert(rotate_left_circular_times(value, carry, 0).0 == value);
    lemma_shift_bits(value, 0);
    lemma_shift_bits(v1, 0);
    lemma_shift_bits(v2, 0);
    lemma_shift_bits(v3, 0);
    lemma_shift_bits(v4, 0);
    lemma_shift_bits(v5, 0);
    lemma_shift_bits(v6, 0);
    lemma_shift_bits(v7, 0);
    assert(v8 == value && (v7 & 0x80 == 0x80) == (value & 1 == 1)) by (bit_vector)
        requires
            v1 == (value << 1) | (value >> 7),
            v2 == (v1 << 1) | (v1 >> 7),
            v3 == (v2 << 1) | (v2 >> 7),
            v4 == (v3 << 1) | (v3 >> 7),
            v5 == (v4 << 1) | (v4 >> 7),
            v6 == (v5 << 1) | (v5 >> 7),
            v7 == (v6 << 1) | (v6 >> 7),
            v8 == (v7 << 1) | (v7 >> 7),
    ;
}

/// Eight circular rotations to the right bring every byte back to itself,
/// and the carry they leave is bit 7 of the byte.
pub proof fn lemma_rotate_right_circular_eight_times(value: u8, carry: bool)
    ensures
        rotate_right_circular_times(value, carry, 8) == (value, value >= 128),
{
    let v1 = rotate_right_circular_times(value, carry, 1).0;
    let v2 = rotate_right_circular_times(value, carry, 2).0;
    let v3 = rotate_right_circular_times(value, carry, 3).0;
    let v4 = rotate_right_circular_times(value, carry, 4).0;
    let v5 = rotate_right_circular_times(value, carry, 5).0;
    let v6 = rotate_right_circular_times(value, carry, 6).0;
    let v7 = rotate_right_circular_times(value, carry, 7).0;
    let v8 = rotate_right_circular_times(value, carry, 8).0;
    assert(rotate_right_circular_times(value, carry, 0).0 == value);
    lemma_shift_bits(value, 0);
    lemma_shift_bits(v1, 0);
    lemma_shift_bits(v2, 0);
    lemma_shift_bits(v3, 0);
    lemma_shift_bits(v4, 0);
    lemma_shift_bits(v5, 0);
    lemma_shift_bits(v6, 0);
    lemma_shift_bits(v7, 0);
    assert(v8 == value && (v7 & 1 == 1) == (value & 0x80 == 0x80)) by (bit_vector)
        requires
            v1 == (value >> 1) | (value << 7),
            v2 == (v1 >> 1) | (v1 << 7),
            v3 == (v2 >> 1) | (v2 << 7),
            v4 == (v3 >> 1) | (v3 << 7),
            v5 == (v4 >> 1) | (v4 << 7),
            v6 == (v5 >> 1) | (v5 << 7),
            v7 == (v6 >> 1) | (v6 << 7),
            v8 == (v7 >> 1) | (v7 << 7),
    ;
}

/// A carry as a byte: 1 if set, 0 if clear.
spec fn carry_bit(carry: bool) -> u8 {
    if carry {
        1
    } else {
        0
    }
}

/// One more rotation to the left through the carry, in the terms of the
/// byte's bits.
proof fn lemma_rotate_left_step(value: u8, carry: bool, times: nat)
    ensures
        ({
            let before = rotate_left_times(value, carry, times);
            let after = rotate_left_times(value, carry, times + 1);
            &&& after.0 == (before.0 << 1) | carry_bit(before.1)
            &&& carry_bit(after.1) == before.0 >> 7
        }),
{
    let before = rotate_left_times(value, carry, times);
    assert(rotate_left_times(value, carry, (times + 1 - 1) as nat) == before);
    lemma_shift_bits(before.0, carry_bit(before.1));
}

/// One more rotation to the right through the carry, in the terms of the
/// byte's bits.
proof fn lemma_rotate_right_step(value: u8, carry: bool, times: nat)
    ensures
        ({
            let before = rotate_right_times(value, carry, times);
            let after = rotate_right_times(value, carry, times + 1);
            &&& after.0 == (carry_bit(before.1) << 7) | (before.0 >> 1)
            &&& carry_bit(after.1) == before.0 & 1
        }),
{
    let before = rotate_right_times(value, carry, times);
    assert(rotate_right_times(value, carry, (times + 1 - 1) as nat) == before);
    lemma_shift_bits(before.0, carry_bit(before.1));
}

/// Eight rotations to the left through the carry move the nine bits of
/// byte and carry round by eight places, which is one place to the right:
/// the carry they leave is bit 0 of the byte, and the byte is the old one
/// halved, with the old carry as bit 7. So the byte comes back to itself
/// only where all its bits equal the carry: for 0x00 with the carry clear
/// and for 0xFF with the carry set.
pub proof fn lemma_rotate_left_eight_times(value: u8, carry: bool)
    ensures
        rotate_left_times(value, carry, 8).1 == (value % 2 == 1),
        rotate_left_times(value, carry, 8).0 == value / 2 + 128 * carry_value(carry),
        rotate_left_times(value, carry, 8).0 == value <==> value == (if carry {
            0xFFu8
        } else {
            0x00u8
        }),
{
    let s1 = rotate_left_times(value, carry, 1);
    let s2 = rotate_left_times(value, carry, 2);
    let s3 = rotate_left_times(value, carry, 3);
    let s4 = rotate_left_times(value, carry, 4);
    let s5 = rotate_left_times(value, carry, 5);
    let s6 = rotate_left_times(value, carry, 6);
    let s7 = rotate_left_times(value, carry, 7);
    let s8 = rotate_left_times(value, carry, 8);
    let (v1, v2, v3, v4, v5, v6, v7, v8) = (s1.0, s2.0, s3.0, s4.0, s5.0, s6.0, s7.0, s8.0);
    let c0 = carry_bit(carry);
    let (c1, c2, c3, c4) = (carry_bit(s1.1), carry_bit(s2.1), carry_bit(s3.1), carry_bit(s4.1));
    let (c5, c6, c7, c8) = (carry_bit(s5.1), carry_bit(s6.1), carry_bit(s7.1), carry_bit(s8.1));
    assert(rotate_left_times(value, carry, 0) == (value, carry));
    lemma_rotate_left_step(value, carry, 0);
    lemma_rotate_left_step(value, carry, 1);
    lemma_rotate_left_step(value, carry, 2);
    lemma_rotate_left_step(value, carry, 3);
    lemma_rotate_left_step(value, carry, 4);
    lemma_rotate_left_step(value, carry, 5);
    lemma_rotate_left_step(value, carry, 6);
    lemma_rotate_left_step(value, carry, 7);
    assert(v8 == (c0 << 7) | (value >> 1) && c8 == value & 1) by (bit_vector)
        requires
            c0 <= 1,
            v1 == (value << 1) | c0,
            c1 == value >> 7,
            v2 == (v1 << 1) | c1,
            c2 == v1 >> 7,
            v3 == (v2 << 1) | c2,
            c3 == v2 >> 7,
            v4 == (v3 << 1) | c3,
            c4 == v3 >> 7,
            v5 == (v4 << 1) | c4,
            c5 == v4 >> 7,
            v6 == (v5 << 1) | c5,
            c6 == v5 >> 7,
            v7 == (v6 << 1) | c6,
            c7 == v6 >> 7,
            v8 == (v7 << 1) | c7,
            c8 == v7 >> 7,
    ;
    lemma_shift_bits(value, c0);
}

/// Eight rotations to the right through the carry are one rotation to the
/// left through it: the carry they leave is bit 7 of the byte, and the
/// byte is the old one doubled, with the old carry as bit 0.
pub proof fn lemma_rotate_right_eight_times(value: u8, carry: bool)
    ensures
        rotate_right_times(value, carry, 8).1 == (value >= 128),
        rotate_right_times(value, carry, 8).0 == (value * 2) % 256 + carry_value(carry),
{
    let s1 = rotate_right_times(value, carry, 1);
    let s2 = rotate_right_times(value, carry, 2);
    let s3 = rotate_right_times(value, carry, 3);
    let s4 = rotate_right_times(value, carry, 4);
    let s5 = rotate_right_times(value, carry, 5);
    let s6 = rotate_right_times(value, carry, 6);
    let s7 = rotate_right_times(value, carry, 7);
    let s8 = rotate_right_times(value, carry, 8);
    let (v1, v2, v3, v4, v5, v6, v7, v8) = (s1.0, s2.0, s3.0, s4.0, s5.0, s6.0, s7.0, s8.0);
    let c0 = carry_bit(carry);
    let (c1, c2, c3, c4) = (carry_bit(s1.1), carry_bit(s2.1), carry_bit(s3.1), carry_bit(s4.1));
    let (c5, c6, c7, c8) = (carry_bit(s5.1), carry_bit(s6.1), carry_bit(s7.1), carry_bit(s8.1));
    assert(rotate_right_times(value, carry, 0) == (value, carry));
    lemma_rotate_right_step(value, carry, 0);
    lemma_rotate_right_step(value, carry, 1);
    lemma_rotate_right_step(value, carry, 2);
    lemma_rotate_right_step(value, carry, 3);
    lemma_rotate_right_step(value, carry, 4);
    lemma_rotate_right_step(value, carry, 5);
    lemma_rotate_right_step(value, carry, 6);
    lemma_rotate_right_step(value, carry, 7);
    assert(v8 == (value << 1) | c0 && c8 == value >> 7) by (bit_vector)
        requires
            c0 <= 1,
            v1 == (c0 << 7) | (value >> 1),
            c1 == value & 1,
            v2 == (c1 << 7) | (v1 >> 1),
            c2 == v1 & 1,
            v3 == (c2 << 7) | (v2 >> 1),
            c3 == v2 & 1,
            v4 == (c3 << 7) | (v3 >> 1),
            c4 == v3 & 1,
            v5 == (c4 << 7) | (v4 >> 1),
            c5 == v4 & 1,
            v6 == (c5 << 7) | (v5 >> 1),
            c6 == v5 & 1,
            v7 == (c6 << 7) | (v6 >> 1),
            c7 == v6 & 1,
            v8 == (c7 << 7) | (v7 >> 1),
            c8 == v7 & 1,
    ;
    lemma_shift_bits(value, c0);
}

/// Nine rotations through the carry, in either direction, bring both the
/// byte and the carry back: byte and carry together are a ring of nine
/// bits.
pub proof fn lemma_rotate_nine_times(value: u8, carry: bool)
    ensures
        rotate_left_times(value, carry, 9) == (value, carry),
        rotate_right_times(value, carry, 9) == (value, carry),
{
    lemma_rotate_left_eight_times(value, carry);
    lemma_rotate_right_eight_times(value, carry);
    assert(rotate_left_times(value, carry, (9 - 1) as nat) == rotate_left_times(value, carry, 8));
    assert(rotate_right_times(value, carry, (9 - 1) as nat) == rotate_right_times(value, carry, 8));
}

/// Setting a bit sets that bit and keeps every other; clearing a bit
/// clears that bit and keeps every other.
pub proof fn lemma_bit_written(value: u8, written: BitPosition, read: BitPosition)
    ensures
        bit_of(set_bit_result(value, written), read) == (read == written || bit_of(value, read)),
        bit_of(reset_bit_result(value, written), read) == (read != written && bit_of(value, read)),
{
    let mask = written.weight() as u8;
    let other = read.weight() as u8;
    lemma_mask_bits(value, mask);
    lemma_mask_bits(value, other);
    lemma_mask_bits(value | mask, other);
    lemma_mask_bits(value & !mask, other);
    assert(((value | mask) & other != 0) == (other == mask || value & other != 0) && ((value
        & !mask) & other != 0) == (other != mask && value & other != 0)) by (bit_vector)
        requires
            mask == 1 || mask == 2 || mask == 4 || mask == 8 || mask == 16 || mask == 32 || mask
                == 64 || mask == 128,
            other == 1 || other == 2 || other == 4 || other == 8 || other == 16 || other == 32
                || other == 64 || other == 128,
    ;
}

} // verus!
