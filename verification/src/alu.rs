//! The arithmetic-logic unit: pure functions from operands (and, where an
//! operation leaves a flag alone, the flags before it) to a result and the
//! flags after it. Results are stated over the integers: a sum or
//! difference taken modulo 256 (or 65536), a carry as a comparison.

use vstd::prelude::*;
use crate::flags::Flags;

verus! {

/// An 8-bit operation on the accumulator and one operand.
#[derive(Clone, Copy, Debug, PartialEq, Eq, Structural)]
pub enum AluOp {
    /// Add the operand.
    Add,
    /// Add the operand and the carry flag.
    Adc,
    /// Subtract the operand.
    Sub,
    /// Subtract the operand and the carry flag.
    Sbc,
    /// Bitwise and.
    And,
    /// Bitwise exclusive or.
    Xor,
    /// Bitwise or.
    Or,
    /// Compare: the flags of a subtraction, the accumulator unchanged.
    Cp,
}

/// A carry as a number: 1 if set, 0 if clear.
pub open spec fn carry_value(carry: bool) -> int {
    if carry {
        1
    } else {
        0
    }
}

/// `a + operand + carry_in`: the sum modulo 256; Z if that is zero; H if the
/// low four bits carry into bit 4; C if the sum passes 255.
pub open spec fn add_result(a: u8, operand: u8, carry_in: bool) -> (u8, Flags) {
    let sum = a + operand + carry_value(carry_in);
    (
        (sum % 256) as u8,
        Flags {
            zero: sum % 256 == 0,
            subtract: false,
            half_carry: a % 16 + operand % 16 + carry_value(carry_in) > 15,
            carry: sum > 255,
        },
    )
}

/// `a - operand - borrow_in`: the difference modulo 256; Z if that is zero;
/// N always; H if the low four bits borrow from bit 4; C if the whole
/// subtraction borrows.
pub open spec fn sub_result(a: u8, operand: u8, borrow_in: bool) -> (u8, Flags) {
    let difference = a - operand - carry_value(borrow_in);
    (
        (difference % 256) as u8,
        Flags {
            zero: difference % 256 == 0,
            subtract: true,
            half_carry: a % 16 < operand % 16 + carry_value(borrow_in),
            carry: a < operand + carry_value(borrow_in),
        },
    )
}

/// A bitwise result with its flags: Z from the value, N and C clear, and H
/// as given.
pub open spec fn logic_result(value: u8, half_carry: bool) -> (u8, Flags) {
    (value, Flags { zero: value == 0, subtract: false, half_carry, carry: false })
}

/// `value + 1` modulo 256; Z from the result, N clear, H if the low four
/// bits were all set, C as it was.
pub open spec fn inc_result(value: u8, flags: Flags) -> (u8, Flags) {
    (
        ((value + 1) % 256) as u8,
        Flags {
            zero: (value + 1) % 256 == 0,
            subtract: false,
            half_carry: value % 16 == 15,
            carry: flags.carry,
        },
    )
}

/// `value - 1` modulo 256; Z from the result, N set, H if the low four
/// bits were all clear, C as it was.
pub open spec fn dec_result(value: u8, flags: Flags) -> (u8, Flags) {
    (
        ((value - 1) % 256) as u8,
        Flags {
            zero: (value - 1) % 256 == 0,
            subtract: true,
            half_carry: value % 16 == 0,
            carry: flags.carry,
        },
    )
}

/// `hl + operand` modulo 65536; Z as it was, N clear, H if the low twelve
/// bits carry into bit 12, C if the sum passes 65535.
pub open spec fn add_hl_result(hl: u16, operand: u16, flags: Flags) -> (u16, Flags) {
    (
        ((hl + operand) % 65536) as u16,
        Flags {
            zero: flags.zero,
            subtract: false,
            half_carry: hl % 4096 + operand % 4096 > 4095,
            carry: hl + operand > 65535,
        },
    )
}

/// What `op` makes of the accumulator `a` and `operand`, given the flags
/// before it: the new accumulator and the new flags.
pub open spec fn alu_result(op: AluOp, a: u8, operand: u8, flags: Flags) -> (u8, Flags) {
    match op {
        AluOp::Add => add_result(a, operand, false),
        AluOp::Adc => add_result(a, operand, flags.carry),
        AluOp::Sub => sub_result(a, operand, false),
        AluOp::Sbc => sub_result(a, operand, flags.carry),
        AluOp::And => logic_result(a & operand, true),
        AluOp::Xor => logic_result(a ^ operand, false),
        AluOp::Or => logic_result(a | operand, false),
        AluOp::Cp => (a, sub_result(a, operand, false).1),
    }
}

/// Masking the low four bits is the remainder modulo 16.
proof fn lemma_low_nibble(value: u8)
    by (bit_vector)
    ensures
        value & 0xF == value % 16,
{
}

/// Masking the low twelve bits is the remainder modulo 4096.
proof fn lemma_low_twelve_bits(value: u16)
    by (bit_vector)
    ensures
        value & 0xFFF == value % 4096,
{
}

/// Adds `operand` and `carry_in` to `a`.
pub fn add(a: u8, operand: u8, carry_in: bool) -> (result: (u8, Flags))
    ensures
        result == add_result(a, operand, carry_in),
{
    let c: u8 = if carry_in {
        1
    } else {
        0
    };
    proof {
        lemma_low_nibble(a);
        lemma_low_nibble(operand);
    }
    let value = a.wrapping_add(operand).wrapping_add(c);
    let half_carry = (a & 0xF) + (operand & 0xF) + c > 0xF;
    let carry = a as u16 + operand as u16 + c as u16 > 0xFF;
    (value, Flags { zero: value == 0, subtract: false, half_carry, carry })
}

/// Subtracts `operand` from `a`.
pub fn sub(a: u8, operand: u8) -> (result: (u8, Flags))
    ensures
        result == sub_result(a, operand, false),
{
    sbc(a, operand, false)
}

/// Subtracts `operand` and `borrow_in` from `a`.
pub fn sbc(a: u8, operand: u8, borrow_in: bool) -> (result: (u8, Flags))
    ensures
        result == sub_result(a, operand, borrow_in),
{
    let c: u8 = if borrow_in {
        1
    } else {
        0
    };
    proof {
        lemma_low_nibble(a);
        lemma_low_nibble(operand);
    }
    let value = a.wrapping_sub(operand).wrapping_sub(c);
    let half_carry = (a & 0xF) < (operand & 0xF) + c;
    let carry = (a as u16) < operand as u16 + c as u16;
    (value, Flags { zero: value == 0, subtract: true, half_carry, carry })
}

/// Bitwise and of `a` and `operand`.
pub fn and(a: u8, operand: u8) -> (result: (u8, Flags))
    ensures
        result == logic_result(a & operand, true),
{
    let value = a & operand;
    (value, Flags { zero: value == 0, subtract: false, half_carry: true, carry: false })
}

/// Bitwise or of `a` and `operand`.
pub fn or(a: u8, operand: u8) -> (result: (u8, Flags))
    ensures
        result == logic_result(a | operand, false),
{
    let value = a | operand;
    (value, Flags { zero: value == 0, subtract: false, half_carry: false, carry: false })
}

/// Bitwise exclusive or of `a` and `operand`.
pub fn xor(a: u8, operand: u8) -> (result: (u8, Flags))
    ensures
        result == logic_result(a ^ operand, false),
{
    let value = a ^ operand;
    (value, Flags { zero: value == 0, subtract: false, half_carry: false, carry: false })
}

/// Compares `a` with `operand`: the flags of `a - operand`. There is no
/// result value, so the accumulator cannot change.
pub fn cp(a: u8, operand: u8) -> (flags: Flags)
    ensures
        flags == sub_result(a, operand, false).1,
        flags.zero <==> a == operand,
        flags.carry <==> a < operand,
{
    sbc(a, operand, false).1
}

/// Adds 1 to an 8-bit value, wrapping. The carry flag is not touched.
pub fn inc_8bit(value: u8, flags: Flags) -> (result: (u8, Flags))
    ensures
        result == inc_result(value, flags),
{
    proof {
        lemma_low_nibble(value);
    }
    let new_value = value.wrapping_add(1);
    (
        new_value,
        Flags {
            zero: new_value == 0,
            subtract: false,
            half_carry: value & 0xF == 0xF,
            carry: flags.carry,
        },
    )
}

/// Subtracts 1 from an 8-bit value, wrapping. The carry flag is not
/// touched.
pub fn dec_8bit(value: u8, flags: Flags) -> (result: (u8, Flags))
    ensures
        result == dec_result(value, flags),
{
    proof {
        lemma_low_nibble(value);
    }
    let new_value = value.wrapping_sub(1);
    (
        new_value,
        Flags {
            zero: new_value == 0,
            subtract: true,
            half_carry: value & 0xF == 0,
            carry: flags.carry,
        },
    )
}

/// Adds 1 to a 16-bit value, wrapping. No flag is involved.
pub fn inc_16bit(value: u16) -> (result: u16)
    ensures
        result == (value + 1) % 65536,
{
    value.wrapping_add(1)
}

/// Subtracts 1 from a 16-bit value, wrapping. No flag is involved.
pub fn dec_16bit(value: u16) -> (result: u16)
    ensures
        result == (value - 1) % 65536,
{
    value.wrapping_sub(1)
}

/// Adds a 16-bit operand to HL. The zero flag is not touched.
pub fn add_hl(hl: u16, operand: u16, flags: Flags) -> (result: (u16, Flags))
    ensures
        result == add_hl_result(hl, operand, flags),
{
    proof {
        lemma_low_twelve_bits(hl);
        lemma_low_twelve_bits(operand);
    }
    let value = hl.wrapping_add(operand);
    let half_carry = (hl & 0xFFF) + (operand & 0xFFF) > 0xFFF;
    let carry = hl as u32 + operand as u32 > 0xFFFF;
    (value, Flags { zero: flags.zero, subtract: false, half_carry, carry })
}

/// Applies `op` to the accumulator `a` and `operand`. `Adc` and `Sbc` take
/// their carry from `flags`; `Cp` hands `a` back unchanged.
pub fn apply(op: AluOp, a: u8, operand: u8, flags: Flags) -> (result: (u8, Flags))
    ensures
        result == alu_result(op, a, operand, flags),
{
    match op {
        AluOp::Add => self::add(a, operand, false),
        AluOp::Adc => self::add(a, operand, flags.carry),
        AluOp::Sub => self::sub(a, operand),
        AluOp::Sbc => sbc(a, operand, flags.carry),
        AluOp::And => and(a, operand),
        AluOp::Xor => xor(a, operand),
        AluOp::Or => or(a, operand),
        AluOp::Cp => (a, cp(a, operand)),
    }
}

/// An addition without carry, in the terms of sums and bits: the result is
/// the sum modulo 256, C says that the sum passes 255, H that the sum of
/// the low four bits passes 15, and Z that the result is zero.
pub proof fn lemma_add_flags(a: u8, b: u8)
    ensures
        add_result(a, b, false).0 == (a + b) % 256,
        add_result(a, b, false).1.carry <==> a + b > 255,
        add_result(a, b, false).1.half_carry <==> (a & 0xF) + (b & 0xF) > 0xF,
        add_result(a, b, false).1.zero <==> add_result(a, b, false).0 == 0,
        !add_result(a, b, false).1.subtract,
{
    lemma_low_nibble(a);
    lemma_low_nibble(b);
}

/// A comparison keeps the accumulator; Z says that the two values are
/// equal and C that the accumulator is the smaller one.
pub proof fn lemma_compare_flags(a: u8, b: u8, flags: Flags)
    ensures
        alu_result(AluOp::Cp, a, b, flags).0 == a,
        alu_result(AluOp::Cp, a, b, flags).1.zero <==> a == b,
        alu_result(AluOp::Cp, a, b, flags).1.carry <==> a < b,
        alu_result(AluOp::Cp, a, b, flags).1 == alu_result(AluOp::Sub, a, b, flags).1,
{
}

/// The accumulator and-ed with itself stays what it is, with Z set just
/// where it is zero, H set and C clear.
pub proof fn lemma_and_self(a: u8, flags: Flags)
    ensures
        alu_result(AluOp::And, a, a, flags) == (
            a,
            Flags { zero: a == 0, subtract: false, half_carry: true, carry: false },
        ),
{
    assert(a & a == a) by (bit_vector);
}

} // verus!
