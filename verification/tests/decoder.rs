//! The decoder: the production table and tables under construction.

use cpu_core::alu::AluOp;
use cpu_core::bits::{BitPosition, ShiftOp};
use cpu_core::decoder::{decode, decode_extended, decode_primary, DecodeError, DecodeTable, PREFIX};
use cpu_core::instruction::{Condition, Entry, Instruction, Operand, Reg16};
use cpu_core::registers::Reg8;

fn entry(instruction: Instruction, length: u16, cycles: u8) -> Entry {
    Entry { instruction, length, cycles, branch_cycles: 0 }
}

fn reg(name: Reg8) -> Operand {
    Operand::Register(name)
}

fn column(index: u8) -> Operand {
    [
        reg(Reg8::B),
        reg(Reg8::C),
        reg(Reg8::D),
        reg(Reg8::E),
        reg(Reg8::H),
        reg(Reg8::L),
        Operand::IndirectHL,
        reg(Reg8::A),
    ][index as usize]
}

#[test]
fn the_production_table_has_no_gap() {
    let table = DecodeTable::production();
    for byte in 0..=255u8 {
        for extended in [false, true] {
            assert_eq!(table.lookup(byte, extended), Ok(decode(byte, extended)));
        }
    }
}

#[test]
fn decode_chooses_the_table() {
    for byte in 0..=255u8 {
        assert_eq!(decode(byte, false), decode_primary(byte));
        assert_eq!(decode(byte, true), decode_extended(byte));
    }
    assert_eq!(PREFIX, 0xCB);
}

#[test]
fn an_empty_table_reports_every_opcode_as_unimplemented() {
    let table = DecodeTable::empty();
    for byte in 0..=255u8 {
        for extended in [false, true] {
            assert_eq!(
                table.lookup(byte, extended),
                Err(DecodeError::UnimplementedOpcode(byte, extended))
            );
        }
    }
}

#[test]
fn a_slot_is_defined_once() {
    let mut table = DecodeTable::empty();
    let nop = decode_primary(0x00);
    let other = decode_primary(0x3E);
    assert!(table.define(0x00, false, nop));
    assert_eq!(table.lookup(0x00, false), Ok(nop));
    assert_eq!(table.lookup(0x00, true), Err(DecodeError::UnimplementedOpcode(0x00, true)));
    assert_eq!(table.lookup(0x01, false), Err(DecodeError::UnimplementedOpcode(0x01, false)));
    assert!(!table.define(0x00, false, other));
    assert_eq!(table.lookup(0x00, false), Ok(nop));
    assert!(table.define(0x00, true, other));
    assert_eq!(table.lookup(0x00, true), Ok(other));
    assert_eq!(table.lookup(0x00, false), Ok(nop));
}

#[test]
fn and_a_a_names_the_accumulator() {
    assert_eq!(decode_primary(0xA7), entry(Instruction::Alu(AluOp::And, reg(Reg8::A)), 1, 1));
    assert_eq!(decode_primary(0xA0), entry(Instruction::Alu(AluOp::And, reg(Reg8::B)), 1, 1));
}

#[test]
fn the_arithmetic_block_is_regular() {
    let ops = [
        AluOp::Add,
        AluOp::Adc,
        AluOp::Sub,
        AluOp::Sbc,
        AluOp::And,
        AluOp::Xor,
        AluOp::Or,
        AluOp::Cp,
    ];
    for (row, op) in ops.iter().enumerate() {
        for index in 0..8u8 {
            let cycles = if index == 6 { 2 } else { 1 };
            assert_eq!(
                decode_primary(0x80 + 8 * row as u8 + index),
                entry(Instruction::Alu(*op, column(index)), 1, cycles)
            );
        }
        assert_eq!(
            decode_primary(0xC6 + 8 * row as u8),
            entry(Instruction::Alu(*op, Operand::Immediate8), 2, 2)
        );
    }
}

#[test]
fn the_load_block_is_regular_but_for_its_centre() {
    for dst in 0..8u8 {
        for src in 0..8u8 {
            let byte = 0x40 + 8 * dst + src;
            if byte == 0x76 {
                assert_eq!(decode_primary(byte), entry(Instruction::Extension, 1, 1));
            } else {
                let cycles = if dst == 6 || src == 6 { 2 } else { 1 };
                assert_eq!(
                    decode_primary(byte),
                    entry(Instruction::Load { dst: column(dst), src: column(src) }, 1, cycles)
                );
            }
        }
    }
}

#[test]
fn immediate_loads_name_their_register() {
    let a = reg(Reg8::A);
    let imm = Operand::Immediate8;
    assert_eq!(decode_primary(0x06), entry(Instruction::Load { dst: reg(Reg8::B), src: imm }, 2, 2));
    assert_eq!(decode_primary(0x0E), entry(Instruction::Load { dst: reg(Reg8::C), src: imm }, 2, 2));
    assert_eq!(decode_primary(0x16), entry(Instruction::Load { dst: reg(Reg8::D), src: imm }, 2, 2));
    assert_eq!(decode_primary(0x1E), entry(Instruction::Load { dst: reg(Reg8::E), src: imm }, 2, 2));
    assert_eq!(decode_primary(0x26), entry(Instruction::Load { dst: reg(Reg8::H), src: imm }, 2, 2));
    assert_eq!(decode_primary(0x2E), entry(Instruction::Load { dst: reg(Reg8::L), src: imm }, 2, 2));
    assert_eq!(
        decode_primary(0x36),
        entry(Instruction::Load { dst: Operand::IndirectHL, src: imm }, 2, 3)
    );
    assert_eq!(decode_primary(0x3E), entry(Instruction::Load { dst: a, src: imm }, 2, 2));
}

#[test]
fn indirect_and_port_loads() {
    let a = reg(Reg8::A);
    let load = |dst, src, length, cycles| entry(Instruction::Load { dst, src }, length, cycles);
    assert_eq!(decode_primary(0x02), load(Operand::IndirectBC, a, 1, 2));
    assert_eq!(decode_primary(0x12), load(Operand::IndirectDE, a, 1, 2));
    assert_eq!(decode_primary(0x22), load(Operand::IndirectHLInc, a, 1, 2));
    assert_eq!(decode_primary(0x32), load(Operand::IndirectHLDec, a, 1, 2));
    assert_eq!(decode_primary(0x0A), load(a, Operand::IndirectBC, 1, 2));
    assert_eq!(decode_primary(0x1A), load(a, Operand::IndirectDE, 1, 2));
    assert_eq!(decode_primary(0x2A), load(a, Operand::IndirectHLInc, 1, 2));
    assert_eq!(decode_primary(0x3A), load(a, Operand::IndirectHLDec, 1, 2));
    assert_eq!(decode_primary(0xE0), load(Operand::IoImmediate, a, 2, 3));
    assert_eq!(decode_primary(0xF0), load(a, Operand::IoImmediate, 2, 3));
    assert_eq!(decode_primary(0xE2), load(Operand::IoC, a, 1, 2));
    assert_eq!(decode_primary(0xF2), load(a, Operand::IoC, 1, 2));
    assert_eq!(decode_primary(0xEA), load(Operand::Absolute, a, 3, 4));
    assert_eq!(decode_primary(0xFA), load(a, Operand::Absolute, 3, 4));
}

#[test]
fn sixteen_bit_instructions() {
    let wide = [Reg16::BC, Reg16::DE, Reg16::HL, Reg16::SP];
    for (i, name) in wide.iter().enumerate() {
        let base = 16 * i as u8;
        assert_eq!(decode_primary(0x01 + base), entry(Instruction::LoadImmediate16(*name), 3, 3));
        assert_eq!(decode_primary(0x03 + base), entry(Instruction::Inc16(*name), 1, 2));
        assert_eq!(decode_primary(0x09 + base), entry(Instruction::AddHl(*name), 1, 2));
        assert_eq!(decode_primary(0x0B + base), entry(Instruction::Dec16(*name), 1, 2));
    }
    assert_eq!(decode_primary(0x08), entry(Instruction::StoreSp, 3, 5));
    assert_eq!(decode_primary(0xF9), entry(Instruction::LoadSpHl, 1, 2));
}

#[test]
fn increments_and_decrements() {
    for index in 0..8u8 {
        let cycles = if index == 6 { 3 } else { 1 };
        assert_eq!(
            decode_primary(0x04 + 8 * index),
            entry(Instruction::Inc(column(index)), 1, cycles)
        );
        assert_eq!(
            decode_primary(0x05 + 8 * index),
            entry(Instruction::Dec(column(index)), 1, cycles)
        );
    }
}

#[test]
fn accumulator_and_flag_instructions() {
    assert_eq!(decode_primary(0x00), entry(Instruction::Nop, 1, 1));
    assert_eq!(decode_primary(0x07), entry(Instruction::Rlca, 1, 1));
    assert_eq!(decode_primary(0x0F), entry(Instruction::Rrca, 1, 1));
    assert_eq!(decode_primary(0x17), entry(Instruction::Rla, 1, 1));
    assert_eq!(decode_primary(0x1F), entry(Instruction::Rra, 1, 1));
    assert_eq!(decode_primary(0x2F), entry(Instruction::Cpl, 1, 1));
    assert_eq!(decode_primary(0x37), entry(Instruction::Scf, 1, 1));
    assert_eq!(decode_primary(0x3F), entry(Instruction::Ccf, 1, 1));
}

#[test]
fn jumps_carry_their_branch_cost() {
    let conditions =
        [Condition::NotZero, Condition::Zero, Condition::NotCarry, Condition::Carry];
    for (i, condition) in conditions.iter().enumerate() {
        assert_eq!(
            decode_primary(0x20 + 8 * i as u8),
            Entry {
                instruction: Instruction::JumpRelative(*condition),
                length: 2,
                cycles: 2,
                branch_cycles: 1
            }
        );
        assert_eq!(
            decode_primary(0xC2 + 8 * i as u8),
            Entry {
                instruction: Instruction::Jump(*condition),
                length: 3,
                cycles: 3,
                branch_cycles: 1
            }
        );
    }
    assert_eq!(decode_primary(0x18), entry(Instruction::JumpRelative(Condition::Always), 2, 3));
    assert_eq!(decode_primary(0xC3), entry(Instruction::Jump(Condition::Always), 3, 4));
    assert_eq!(decode_primary(0xE9), entry(Instruction::JumpHl, 1, 1));
}

#[test]
fn opcodes_outside_the_core_are_extensions() {
    let outside = [
        0x10u8, 0x27, 0x76, 0xC0, 0xC1, 0xC4, 0xC5, 0xC7, 0xC8, 0xC9, 0xCB, 0xCC, 0xCD, 0xCF, 0xD0,
        0xD1, 0xD3, 0xD4, 0xD5, 0xD7, 0xD8, 0xD9, 0xDB, 0xDC, 0xDD, 0xDF, 0xE1, 0xE3, 0xE4, 0xE5,
        0xE7, 0xE8, 0xEB, 0xEC, 0xED, 0xEF, 0xF1, 0xF3, 0xF4, 0xF5, 0xF7, 0xF8, 0xFB, 0xFC, 0xFD,
        0xFF,
    ];
    let mut count = 0;
    for byte in 0..=255u8 {
        let decoded = decode_primary(byte);
        if outside.contains(&byte) {
            assert_eq!(decoded, entry(Instruction::Extension, 1, 1));
            count += 1;
        } else {
            assert_ne!(decoded.instruction, Instruction::Extension);
        }
        assert!(decoded.length >= 1 && decoded.length <= 3);
        assert!(decoded.cycles >= 1 && decoded.cycles <= 5);
    }
    assert_eq!(count, outside.len());
}

#[test]
fn the_extended_table_is_regular() {
    let shifts = [
        ShiftOp::Rlc,
        ShiftOp::Rrc,
        ShiftOp::Rl,
        ShiftOp::Rr,
        ShiftOp::Sla,
        ShiftOp::Sra,
        ShiftOp::Swap,
        ShiftOp::Srl,
    ];
    for row in 0..8u8 {
        let position = BitPosition::from_index(row).unwrap();
        for index in 0..8u8 {
            let memory = index == 6;
            let operand = column(index);
            assert_eq!(
                decode_extended(8 * row + index),
                entry(
                    Instruction::Shift(shifts[row as usize], operand),
                    2,
                    if memory { 4 } else { 2 }
                )
            );
            assert_eq!(
                decode_extended(0x40 + 8 * row + index),
                entry(Instruction::TestBit(position, operand), 2, if memory { 3 } else { 2 })
            );
            assert_eq!(
                decode_extended(0x80 + 8 * row + index),
                entry(Instruction::ResetBit(position, operand), 2, if memory { 4 } else { 2 })
            );
            assert_eq!(
                decode_extended(0xC0 + 8 * row + index),
                entry(Instruction::SetBit(position, operand), 2, if memory { 4 } else { 2 })
            );
        }
    }
}

#[test]
fn named_extended_opcodes() {
    assert_eq!(
        decode_extended(0x37),
        entry(Instruction::Shift(ShiftOp::Swap, reg(Reg8::A)), 2, 2)
    );
    assert_eq!(
        decode_extended(0x7C),
        entry(Instruction::TestBit(BitPosition::B7, reg(Reg8::H)), 2, 2)
    );
    assert_eq!(
        decode_extended(0x86),
        entry(Instruction::ResetBit(BitPosition::B0, Operand::IndirectHL), 2, 4)
    );
    assert_eq!(
        decode_extended(0xFF),
        entry(Instruction::SetBit(BitPosition::B7, reg(Reg8::A)), 2, 2)
    );
    assert_eq!(decode_extended(0x11), entry(Instruction::Shift(ShiftOp::Rl, reg(Reg8::C)), 2, 2));
    assert_eq!(
        decode_extended(0x3E),
        entry(Instruction::Shift(ShiftOp::Srl, Operand::IndirectHL), 2, 4)
    );
}
