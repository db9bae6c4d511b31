//! The decoder: a total, two-level lookup from opcode bytes to table
//! entries. A byte is looked up in the primary table, except that the byte
//! after the prefix `PREFIX` is looked up in the extended table.
//!
//! The encoding is regular: the top two bits of an opcode choose a block,
//! the next three a row, the low three a column. `standard_entry` reads an
//! opcode by these fields; the tables list all 512 entries one by one, a
//! block at a time, and are proved to agree with it.

use vstd::prelude::*;
use vstd::pervasive::unreached;
use crate::alu::AluOp;
use crate::bits::{BitPosition, ShiftOp};
use crate::instruction::{Condition, Entry, Instruction, Operand, Reg16};
use crate::registers::Reg8;

verus! {

/// The opcode that announces an extended instruction.
pub const PREFIX: u8 = 0xCB;

/// The block of an opcode: its top two bits.
pub open spec fn opcode_block(byte: u8) -> int {
    byte as int / 64
}

/// The row of an opcode within its block: its middle three bits.
pub open spec fn opcode_row(byte: u8) -> int {
    (byte as int / 8) % 8
}

/// The column of an opcode within its block: its low three bits.
pub open spec fn opcode_column(byte: u8) -> int {
    byte as int % 8
}

/// An opcode is made of its three fields, and each field has its range.
/// A row in turn is a pair of rows and its place in the pair.
pub proof fn lemma_opcode_fields(byte: u8)
    ensures
        byte == 64 * opcode_block(byte) + 8 * opcode_row(byte) + opcode_column(byte),
        0 <= opcode_block(byte) < 4,
        0 <= opcode_row(byte) < 8,
        0 <= opcode_column(byte) < 8,
        opcode_row(byte) == 2 * (opcode_row(byte) / 2) + opcode_row(byte) % 2,
        0 <= opcode_row(byte) % 2 < 2,
{
}

/// The operand that a three-bit register field names.
pub open spec fn operand_field(field: int) -> Operand {
    if field == 0 {
        Operand::Register(Reg8::B)
    } else if field == 1 {
        Operand::Register(Reg8::C)
    } else if field == 2 {
        Operand::Register(Reg8::D)
    } else if field == 3 {
        Operand::Register(Reg8::E)
    } else if field == 4 {
        Operand::Register(Reg8::H)
    } else if field == 5 {
        Operand::Register(Reg8::L)
    } else if field == 6 {
        Operand::IndirectHL
    } else {
        Operand::Register(Reg8::A)
    }
}

/// The 16-bit register that a two-bit field names.
pub open spec fn wide_field(field: int) -> Reg16 {
    if field == 0 {
        Reg16::BC
    } else if field == 1 {
        Reg16::DE
    } else if field == 2 {
        Reg16::HL
    } else {
        Reg16::SP
    }
}

/// The memory operand that a two-bit pointer field names.
pub open spec fn pointer_field(field: int) -> Operand {
    if field == 0 {
        Operand::IndirectBC
    } else if field == 1 {
        Operand::IndirectDE
    } else if field == 2 {
        Operand::IndirectHLInc
    } else {
        Operand::IndirectHLDec
    }
}

/// The condition that a two-bit field names.
pub open spec fn condition_field(field: int) -> Condition {
    if field == 0 {
        Condition::NotZero
    } else if field == 1 {
        Condition::Zero
    } else if field == 2 {
        Condition::NotCarry
    } else {
        Condition::Carry
    }
}

/// The arithmetic or logic operation that a three-bit field names.
pub open spec fn alu_field(field: int) -> AluOp {
    if field == 0 {
        AluOp::Add
    } else if field == 1 {
        AluOp::Adc
    } else if field == 2 {
        AluOp::Sub
    } else if field == 3 {
        AluOp::Sbc
    } else if field == 4 {
        AluOp::And
    } else if field == 5 {
        AluOp::Xor
    } else if field == 6 {
        AluOp::Or
    } else {
        AluOp::Cp
    }
}

/// The rotation or shift that a three-bit field names.
pub open spec fn shift_field(field: int) -> ShiftOp {
    if field == 0 {
        ShiftOp::Rlc
    } else if field == 1 {
        ShiftOp::Rrc
    } else if field == 2 {
        ShiftOp::Rl
    } else if field == 3 {
        ShiftOp::Rr
    } else if field == 4 {
        ShiftOp::Sla
    } else if field == 5 {
        ShiftOp::Sra
    } else if field == 6 {
        ShiftOp::Swap
    } else {
        ShiftOp::Srl
    }
}

/// The bit position that a three-bit field names.
pub open spec fn bit_field(field: int) -> BitPosition {
    if field == 0 {
        BitPosition::B0
    } else if field == 1 {
        BitPosition::B1
    } else if field == 2 {
        BitPosition::B2
    } else if field == 3 {
        BitPosition::B3
    } else if field == 4 {
        BitPosition::B4
    } else if field == 5 {
        BitPosition::B5
    } else if field == 6 {
        BitPosition::B6
    } else {
        BitPosition::B7
    }
}

/// The instruction in the first block of the primary table (opcodes 0x00
/// to 0x3F), by row and column.
pub open spec fn low_block_instruction(row: int, column: int) -> Instruction {
    if column == 0 {
        if row == 0 {
            Instruction::Nop
        } else if row == 1 {
            Instruction::StoreSp
        } else if row == 2 {
            // The stop instruction.
            Instruction::Extension
        } else if row == 3 {
            Instruction::JumpRelative(Condition::Always)
        } else {
            Instruction::JumpRelative(condition_field(row - 4))
        }
    } else if column == 1 {
        if row % 2 == 0 {
            Instruction::LoadImmediate16(wide_field(row / 2))
        } else {
            Instruction::AddHl(wide_field(row / 2))
        }
    } else if column == 2 {
        if row % 2 == 0 {
            Instruction::Load { dst: pointer_field(row / 2), src: Operand::Register(Reg8::A) }
        } else {
            Instruction::Load { dst: Operand::Register(Reg8::A), src: pointer_field(row / 2) }
        }
    } else if column == 3 {
        if row % 2 == 0 {
            Instruction::Inc16(wide_field(row / 2))
        } else {
            Instruction::Dec16(wide_field(row / 2))
        }
    } else if column == 4 {
        Instruction::Inc(operand_field(row))
    } else if column == 5 {
        Instruction::Dec(operand_field(row))
    } else if column == 6 {
        Instruction::Load { dst: operand_field(row), src: Operand::Immediate8 }
    } else {
        if row == 0 {
            Instruction::Rlca
        } else if row == 1 {
            Instruction::Rrca
        } else if row == 2 {
            Instruction::Rla
        } else if row == 3 {
            Instruction::Rra
        } else if row == 4 {
            // Decimal adjust.
            Instruction::Extension
        } else if row == 5 {
            Instruction::Cpl
        } else if row == 6 {
            Instruction::Scf
        } else {
            Instruction::Ccf
        }
    }
}

/// The instruction in the last block of the primary table (opcodes 0xC0
/// to 0xFF), by row and column. Most of this block belongs to the stack,
/// to calls and returns and to interrupt control, which the core leaves to
/// an extension.
pub open spec fn high_block_instruction(row: int, column: int) -> Instruction {
    if column == 0 {
        if row == 4 {
            Instruction::Load { dst: Operand::IoImmediate, src: Operand::Register(Reg8::A) }
        } else if row == 6 {
            Instruction::Load { dst: Operand::Register(Reg8::A), src: Operand::IoImmediate }
        } else {
            // Conditional returns and stack pointer arithmetic.
            Instruction::Extension
        }
    } else if column == 1 {
        if row == 5 {
            Instruction::JumpHl
        } else if row == 7 {
            Instruction::LoadSpHl
        } else {
            // Pops and returns.
            Instruction::Extension
        }
    } else if column == 2 {
        if row < 4 {
            Instruction::Jump(condition_field(row))
        } else if row == 4 {
            Instruction::Load { dst: Operand::IoC, src: Operand::Register(Reg8::A) }
        } else if row == 5 {
            Instruction::Load { dst: Operand::Absolute, src: Operand::Register(Reg8::A) }
        } else if row == 6 {
            Instruction::Load { dst: Operand::Register(Reg8::A), src: Operand::IoC }
        } else {
            Instruction::Load { dst: Operand::Register(Reg8::A), src: Operand::Absolute }
        }
    } else if column == 3 {
        if row == 0 {
            Instruction::Jump(Condition::Always)
        } else {
            // The prefix, interrupt control and unassigned bytes.
            Instruction::Extension
        }
    } else if column == 6 {
        Instruction::Alu(alu_field(row), Operand::Immediate8)
    } else {
        // Calls, pushes, restarts and unassigned bytes.
        Instruction::Extension
    }
}

/// The instruction that `byte` stands for in the primary table.
pub open spec fn primary_instruction(byte: u8) -> Instruction {
    let block = opcode_block(byte);
    let row = opcode_row(byte);
    let column = opcode_column(byte);
    if block == 0 {
        low_block_instruction(row, column)
    } else if block == 1 {
        if row == 6 && column == 6 {
            // Where a load from the byte at HL to itself would stand: halt.
            Instruction::Extension
        } else {
            Instruction::Load { dst: operand_field(row), src: operand_field(column) }
        }
    } else if block == 2 {
        Instruction::Alu(alu_field(row), operand_field(column))
    } else {
        high_block_instruction(row, column)
    }
}

/// The instruction that `byte` stands for in the extended table.
pub open spec fn extended_instruction(byte: u8) -> Instruction {
    let block = opcode_block(byte);
    let row = opcode_row(byte);
    let operand = operand_field(opcode_column(byte));
    if block == 0 {
        Instruction::Shift(shift_field(row), operand)
    } else if block == 1 {
        Instruction::TestBit(bit_field(row), operand)
    } else if block == 2 {
        Instruction::ResetBit(bit_field(row), operand)
    } else {
        Instruction::SetBit(bit_field(row), operand)
    }
}

/// The entry of the production table for `byte`: in the extended table if
/// `extended` holds, in the primary table otherwise. It is defined for all
/// 512 slots.
pub open spec fn standard_entry(byte: u8, extended: bool) -> Entry {
    if extended {
        extended_instruction(byte).entry()
    } else {
        primary_instruction(byte).entry()
    }
}

/// Every entry of the production table is one to three bytes long and
/// costs one to five cycles, with at most one more for a taken jump. The
/// extended table holds the instructions that are encoded behind the
/// prefix, and the primary table holds none of them.
pub proof fn lemma_standard_entry_bounds(byte: u8, extended: bool)
    ensures
        standard_entry(byte, extended).instruction.is_extended() == extended,
        standard_entry(byte, extended).length
            == standard_entry(byte, extended).instruction.encoded_length(),
        standard_entry(byte, extended).cycles
            == standard_entry(byte, extended).instruction.base_cycles(),
        standard_entry(byte, extended).branch_cycles
            == standard_entry(byte, extended).instruction.branch_cycles(),
        1 <= standard_entry(byte, extended).length <= 3,
        standard_entry(byte, extended).length <= standard_entry(byte, extended).cycles <= 5,
        standard_entry(byte, extended).branch_cycles <= 1,
{
    lemma_opcode_fields(byte);
}

/// A table row for an instruction that is no conditional jump.
fn entry(instruction: Instruction, length: u16, cycles: u8) -> (entry: Entry)
    ensures
        entry == (Entry { instruction, length, cycles, branch_cycles: 0 }),
{
    Entry { instruction, length, cycles, branch_cycles: 0 }
}

/// A table row for a conditional jump, with what it costs more when it is
/// taken.
fn branch_entry(instruction: Instruction, length: u16, cycles: u8, branch_cycles: u8) -> (entry:
    Entry)
    ensures
        entry == (Entry { instruction, length, cycles, branch_cycles }),
{
    Entry { instruction, length, cycles, branch_cycles }
}

/// The first block of the primary table: 16-bit loads and arithmetic,
/// indirect loads, increments and decrements, immediate loads, the
/// accumulator rotations and the relative jumps.
fn decode_mixed_block(byte: u8) -> (entry: Entry)
    requires
        0x00 <= byte <= 0x3F,
    ensures
        entry == standard_entry(byte, false),
{
    proof {
        lemma_opcode_fields(byte);
    }
    match byte {
        0x00 => entry(Instruction::Nop, 1, 1),
        0x01 => entry(Instruction::LoadImmediate16(Reg16::BC), 3, 3),
        0x02 => entry(Instruction::Load { dst: Operand::IndirectBC, src: Operand::Register(Reg8::A) }, 1, 2),
        0x03 => entry(Instruction::Inc16(Reg16::BC), 1, 2),
        0x04 => entry(Instruction::Inc(Operand::Register(Reg8::B)), 1, 1),
        0x05 => entry(Instruction::Dec(Operand::Register(Reg8::B)), 1, 1),
        0x06 => entry(Instruction::Load { dst: Operand::Register(Reg8::B), src: Operand::Immediate8 }, 2, 2),
        0x07 => entry(Instruction::Rlca, 1, 1),
        0x08 => entry(Instruction::StoreSp, 3, 5),
        0x09 => entry(Instruction::AddHl(Reg16::BC), 1, 2),
        0x0A => entry(Instruction::Load { dst: Operand::Register(Reg8::A), src: Operand::IndirectBC }, 1, 2),
        0x0B => entry(Instruction::Dec16(Reg16::BC), 1, 2),
        0x0C => entry(Instruction::Inc(Operand::Register(Reg8::C)), 1, 1),
        0x0D => entry(Instruction::Dec(Operand::Register(Reg8::C)), 1, 1),
        0x0E => entry(Instruction::Load { dst: Operand::Register(Reg8::C), src: Operand::Immediate8 }, 2, 2),
        0x0F => entry(Instruction::Rrca, 1, 1),
        // Stop.
        0x10 => entry(Instruction::Extension, 1, 1),
        0x11 => entry(Instruction::LoadImmediate16(Reg16::DE), 3, 3),
        0x12 => entry(Instruction::Load { dst: Operand::IndirectDE, src: Operand::Register(Reg8::A) }, 1, 2),
        0x13 => entry(Instruction::Inc16(Reg16::DE), 1, 2),
        0x14 => entry(Instruction::Inc(Operand::Register(Reg8::D)), 1, 1),
        0x15 => entry(Instruction::Dec(Operand::Register(Reg8::D)), 1, 1),
        0x16 => entry(Instruction::Load { dst: Operand::Register(Reg8::D), src: Operand::Immediate8 }, 2, 2),
        0x17 => entry(Instruction::Rla, 1, 1),
        0x18 => entry(Instruction::JumpRelative(Condition::Always), 2, 3),
        0x19 => entry(Instruction::AddHl(Reg16::DE), 1, 2),
        0x1A => entry(Instruction::Load { dst: Operand::Register(Reg8::A), src: Operand::IndirectDE }, 1, 2),
        0x1B => entry(Instruction::Dec16(Reg16::DE), 1, 2),
        0x1C => entry(Instruction::Inc(Operand::Register(Reg8::E)), 1, 1),
        0x1D => entry(Instruction::Dec(Operand::Register(Reg8::E)), 1, 1),
        0x1E => entry(Instruction::Load { dst: Operand::Register(Reg8::E), src: Operand::Immediate8 }, 2, 2),
        0x1F => entry(Instruction::Rra, 1, 1),
        0x20 => branch_entry(Instruction::JumpRelative(Condition::NotZero), 2, 2, 1),
        0x21 => entry(Instruction::LoadImmediate16(Reg16::HL), 3, 3),
        0x22 => entry(Instruction::Load { dst: Operand::IndirectHLInc, src: Operand::Register(Reg8::A) }, 1, 2),
        0x23 => entry(Instruction::Inc16(Reg16::HL), 1, 2),
        0x24 => entry(Instruction::Inc(Operand::Register(Reg8::H)), 1, 1),
        0x25 => entry(Instruction::Dec(Operand::Register(Reg8::H)), 1, 1),
        0x26 => entry(Instruction::Load { dst: Operand::Register(Reg8::H), src: Operand::Immediate8 }, 2, 2),
        // Decimal adjust.
        0x27 => entry(Instruction::Extension, 1, 1),
        0x28 => branch_entry(Instruction::JumpRelative(Condition::Zero), 2, 2, 1),
        0x29 => entry(Instruction::AddHl(Reg16::HL), 1, 2),
        0x2A => entry(Instruction::Load { dst: Operand::Register(Reg8::A), src: Operand::IndirectHLInc }, 1, 2),
        0x2B => entry(Instruction::Dec16(Reg16::HL), 1, 2),
        0x2C => entry(Instruction::Inc(Operand::Register(Reg8::L)), 1, 1),
        0x2D => entry(Instruction::Dec(Operand::Register(Reg8::L)), 1, 1),
        0x2E => entry(Instruction::Load { dst: Operand::Register(Reg8::L), src: Operand::Immediate8 }, 2, 2),
        0x2F => entry(Instruction::Cpl, 1, 1),
        0x30 => branch_entry(Instruction::JumpRelative(Condition::NotCarry), 2, 2, 1),
        0x31 => entry(Instruction::LoadImmediate16(Reg16::SP), 3, 3),
        0x32 => entry(Instruction::Load { dst: Operand::IndirectHLDec, src: Operand::Register(Reg8::A) }, 1, 2),
        0x33 => entry(Instruction::Inc16(Reg16::SP), 1, 2),
        0x34 => entry(Instruction::Inc(Operand::IndirectHL), 1, 3),
        0x35 => entry(Instruction::Dec(Operand::IndirectHL), 1, 3),
        0x36 => entry(Instruction::Load { dst: Operand::IndirectHL, src: Operand::Immediate8 }, 2, 3),
        0x37 => entry(Instruction::Scf, 1, 1),
        0x38 => branch_entry(Instruction::JumpRelative(Condition::Carry), 2, 2, 1),
        0x39 => entry(Instruction::AddHl(Reg16::SP), 1, 2),
        0x3A => entry(Instruction::Load { dst: Operand::Register(Reg8::A), src: Operand::IndirectHLDec }, 1, 2),
        0x3B => entry(Instruction::Dec16(Reg16::SP), 1, 2),
        0x3C => entry(Instruction::Inc(Operand::Register(Reg8::A)), 1, 1),
        0x3D => entry(Instruction::Dec(Operand::Register(Reg8::A)), 1, 1),
        0x3E => entry(Instruction::Load { dst: Operand::Register(Reg8::A), src: Operand::Immediate8 }, 2, 2),
        0x3F => entry(Instruction::Ccf, 1, 1),
        _ => unreached(),
    }
}

/// The second block of the primary table: loads between registers and
/// the byte at HL.
fn decode_load_block(byte: u8) -> (entry: Entry)
    requires
        0x40 <= byte <= 0x7F,
    ensures
        entry == standard_entry(byte, false),
{
    proof {
        lemma_opcode_fields(byte);
    }
    match byte {
        0x40 => entry(Instruction::Load { dst: Operand::Register(Reg8::B), src: Operand::Register(Reg8::B) }, 1, 1),
        0x41 => entry(Instruction::Load { dst: Operand::Register(Reg8::B), src: Operand::Register(Reg8::C) }, 1, 1),
        0x42 => entry(Instruction::Load { dst: Operand::Register(Reg8::B), src: Operand::Register(Reg8::D) }, 1, 1),
        0x43 => entry(Instruction::Load { dst: Operand::Register(Reg8::B), src: Operand::Register(Reg8::E) }, 1, 1),
        0x44 => entry(Instruction::Load { dst: Operand::Register(Reg8::B), src: Operand::Register(Reg8::H) }, 1, 1),
        0x45 => entry(Instruction::Load { dst: Operand::Register(Reg8::B), src: Operand::Register(Reg8::L) }, 1, 1),
        0x46 => entry(Instruction::Load { dst: Operand::Register(Reg8::B), src: Operand::IndirectHL }, 1, 2),
        0x47 => entry(Instruction::Load { dst: Operand::Register(Reg8::B), src: Operand::Register(Reg8::A) }, 1, 1),
        0x48 => entry(Instruction::Load { dst: Operand::Register(Reg8::C), src: Operand::Register(Reg8::B) }, 1, 1),
        0x49 => entry(Instruction::Load { dst: Operand::Register(Reg8::C), src: Operand::Register(Reg8::C) }, 1, 1),
        0x4A => entry(Instruction::Load { dst: Operand::Register(Reg8::C), src: Operand::Register(Reg8::D) }, 1, 1),
        0x4B => entry(Instruction::Load { dst: Operand::Register(Reg8::C), src: Operand::Register(Reg8::E) }, 1, 1),
        0x4C => entry(Instruction::Load { dst: Operand::Register(Reg8::C), src: Operand::Register(Reg8::H) }, 1, 1),
        0x4D => entry(Instruction::Load { dst: Operand::Register(Reg8::C), src: Operand::Register(Reg8::L) }, 1, 1),
        0x4E => entry(Instruction::Load { dst: Operand::Register(Reg8::C), src: Operand::IndirectHL }, 1, 2),
        0x4F => entry(Instruction::Load { dst: Operand::Register(Reg8::C), src: Operand::Register(Reg8::A) }, 1, 1),
        0x50 => entry(Instruction::Load { dst: Operand::Register(Reg8::D), src: Operand::Register(Reg8::B) }, 1, 1),
        0x51 => entry(Instruction::Load { dst: Operand::Register(Reg8::D), src: Operand::Register(Reg8::C) }, 1, 1),
        0x52 => entry(Instruction::Load { dst: Operand::Register(Reg8::D), src: Operand::Register(Reg8::D) }, 1, 1),
        0x53 => entry(Instruction::Load { dst: Operand::Register(Reg8::D), src: Operand::Register(Reg8::E) }, 1, 1),
        0x54 => entry(Instruction::Load { dst: Operand::Register(Reg8::D), src: Operand::Register(Reg8::H) }, 1, 1),
        0x55 => entry(Instruction::Load { dst: Operand::Register(Reg8::D), src: Operand::Register(Reg8::L) }, 1, 1),
        0x56 => entry(Instruction::Load { dst: Operand::Register(Reg8::D), src: Operand::IndirectHL }, 1, 2),
        0x57 => entry(Instruction::Load { dst: Operand::Register(Reg8::D), src: Operand::Register(Reg8::A) }, 1, 1),
        0x58 => entry(Instruction::Load { dst: Operand::Register(Reg8::E), src: Operand::Register(Reg8::B) }, 1, 1),
        0x59 => entry(Instruction::Load { dst: Operand::Register(Reg8::E), src: Operand::Register(Reg8::C) }, 1, 1),
        0x5A => entry(Instruction::Load { dst: Operand::Register(Reg8::E), src: Operand::Register(Reg8::D) }, 1, 1),
        0x5B => entry(Instruction::Load { dst: Operand::Register(Reg8::E), src: Operand::Register(Reg8::E) }, 1, 1),
        0x5C => entry(Instruction::Load { dst: Operand::Register(Reg8::E), src: Operand::Register(Reg8::H) }, 1, 1),
        0x5D => entry(Instruction::Load { dst: Operand::Register(Reg8::E), src: Operand::Register(Reg8::L) }, 1, 1),
        0x5E => entry(Instruction::Load { dst: Operand::Register(Reg8::E), src: Operand::IndirectHL }, 1, 2),
        0x5F => entry(Instruction::Load { dst: Operand::Register(Reg8::E), src: Operand::Register(Reg8::A) }, 1, 1),
        0x60 => entry(Instruction::Load { dst: Operand::Register(Reg8::H), src: Operand::Register(Reg8::B) }, 1, 1),
        0x61 => entry(Instruction::Load { dst: Operand::Register(Reg8::H), src: Operand::Register(Reg8::C) }, 1, 1),
        0x62 => entry(Instruction::Load { dst: Operand::Register(Reg8::H), src: Operand::Register(Reg8::D) }, 1, 1),
        0x63 => entry(Instruction::Load { dst: Operand::Register(Reg8::H), src: Operand::Register(Reg8::E) }, 1, 1),
        0x64 => entry(Instruction::Load { dst: Operand::Register(Reg8::H), src: Operand::Register(Reg8::H) }, 1, 1),
        0x65 => entry(Instruction::Load { dst: Operand::Register(Reg8::H), src: Operand::Register(Reg8::L) }, 1, 1),
        0x66 => entry(Instruction::Load { dst: Operand::Register(Reg8::H), src: Operand::IndirectHL }, 1, 2),
        0x67 => entry(Instruction::Load { dst: Operand::Register(Reg8::H), src: Operand::Register(Reg8::A) }, 1, 1),
        0x68 => entry(Instruction::Load { dst: Operand::Register(Reg8::L), src: Operand::Register(Reg8::B) }, 1, 1),
        0x69 => entry(Instruction::Load { dst: Operand::Register(Reg8::L), src: Operand::Register(Reg8::C) }, 1, 1),
        0x6A => entry(Instruction::Load { dst: Operand::Register(Reg8::L), src: Operand::Register(Reg8::D) }, 1, 1),
        0x6B => entry(Instruction::Load { dst: Operand::Register(Reg8::L), src: Operand::Register(Reg8::E) }, 1, 1),
        0x6C => entry(Instruction::Load { dst: Operand::Register(Reg8::L), src: Operand::Register(Reg8::H) }, 1, 1),
        0x6D => entry(Instruction::Load { dst: Operand::Register(Reg8::L), src: Operand::Register(Reg8::L) }, 1, 1),
        0x6E => entry(Instruction::Load { dst: Operand::Register(Reg8::L), src: Operand::IndirectHL }, 1, 2),
        0x6F => entry(Instruction::Load { dst: Operand::Register(Reg8::L), src: Operand::Register(Reg8::A) }, 1, 1),
        0x70 => entry(Instruction::Load { dst: Operand::IndirectHL, src: Operand::Register(Reg8::B) }, 1, 2),
        0x71 => entry(Instruction::Load { dst: Operand::IndirectHL, src: Operand::Register(Reg8::C) }, 1, 2),
        0x72 => entry(Instruction::Load { dst: Operand::IndirectHL, src: Operand::Register(Reg8::D) }, 1, 2),
        0x73 => entry(Instruction::Load { dst: Operand::IndirectHL, src: Operand::Register(Reg8::E) }, 1, 2),
        0x74 => entry(Instruction::Load { dst: Operand::IndirectHL, src: Operand::Register(Reg8::H) }, 1, 2),
        0x75 => entry(Instruction::Load { dst: Operand::IndirectHL, src: Operand::Register(Reg8::L) }, 1, 2),
        // Halt.
        0x76 => entry(Instruction::Extension, 1, 1),
        0x77 => entry(Instruction::Load { dst: Operand::IndirectHL, src: Operand::Register(Reg8::A) }, 1, 2),
        0x78 => entry(Instruction::Load { dst: Operand::Register(Reg8::A), src: Operand::Register(Reg8::B) }, 1, 1),
        0x79 => entry(Instruction::Load { dst: Operand::Register(Reg8::A), src: Operand::Register(Reg8::C) }, 1, 1),
        0x7A => entry(Instruction::Load { dst: Operand::Register(Reg8::A), src: Operand::Register(Reg8::D) }, 1, 1),
        0x7B => entry(Instruction::Load { dst: Operand::Register(Reg8::A), src: Operand::Register(Reg8::E) }, 1, 1),
        0x7C => entry(Instruction::Load { dst: Operand::Register(Reg8::A), src: Operand::Register(Reg8::H) }, 1, 1),
        0x7D => entry(Instruction::Load { dst: Operand::Register(Reg8::A), src: Operand::Register(Reg8::L) }, 1, 1),
        0x7E => entry(Instruction::Load { dst: Operand::Register(Reg8::A), src: Operand::IndirectHL }, 1, 2),
        0x7F => entry(Instruction::Load { dst: Operand::Register(Reg8::A), src: Operand::Register(Reg8::A) }, 1, 1),
        _ => unreached(),
    }
}

/// The third block of the primary table: arithmetic and logic on the
/// accumulator.
fn decode_alu_block(byte: u8) -> (entry: Entry)
    requires
        0x80 <= byte <= 0xBF,
    ensures
        entry == standard_entry(byte, false),
{
    proof {
        lemma_opcode_fields(byte);
    }
    match byte {
        0x80 => entry(Instruction::Alu(AluOp::Add, Operand::Register(Reg8::B)), 1, 1),
        0x81 => entry(Instruction::Alu(AluOp::Add, Operand::Register(Reg8::C)), 1, 1),
        0x82 => entry(Instruction::Alu(AluOp::Add, Operand::Register(Reg8::D)), 1, 1),
        0x83 => entry(Instruction::Alu(AluOp::Add, Operand::Register(Reg8::E)), 1, 1),
        0x84 => entry(Instruction::Alu(AluOp::Add, Operand::Register(Reg8::H)), 1, 1),
        0x85 => entry(Instruction::Alu(AluOp::Add, Operand::Register(Reg8::L)), 1, 1),
        0x86 => entry(Instruction::Alu(AluOp::Add, Operand::IndirectHL), 1, 2),
        0x87 => entry(Instruction::Alu(AluOp::Add, Operand::Register(Reg8::A)), 1, 1),
        0x88 => entry(Instruction::Alu(AluOp::Adc, Operand::Register(Reg8::B)), 1, 1),
        0x89 => entry(Instruction::Alu(AluOp::Adc, Operand::Register(Reg8::C)), 1, 1),
        0x8A => entry(Instruction::Alu(AluOp::Adc, Operand::Register(Reg8::D)), 1, 1),
        0x8B => entry(Instruction::Alu(AluOp::Adc, Operand::Register(Reg8::E)), 1, 1),
        0x8C => entry(Instruction::Alu(AluOp::Adc, Operand::Register(Reg8::H)), 1, 1),
        0x8D => entry(Instruction::Alu(AluOp::Adc, Operand::Register(Reg8::L)), 1, 1),
        0x8E => entry(Instruction::Alu(AluOp::Adc, Operand::IndirectHL), 1, 2),
        0x8F => entry(Instruction::Alu(AluOp::Adc, Operand::Register(Reg8::A)), 1, 1),
        0x90 => entry(Instruction::Alu(AluOp::Sub, Operand::Register(Reg8::B)), 1, 1),
        0x91 => entry(Instruction::Alu(AluOp::Sub, Operand::Register(Reg8::C)), 1, 1),
        0x92 => entry(Instruction::Alu(AluOp::Sub, Operand::Register(Reg8::D)), 1, 1),
        0x93 => entry(Instruction::Alu(AluOp::Sub, Operand::Register(Reg8::E)), 1, 1),
        0x94 => entry(Instruction::Alu(AluOp::Sub, Operand::Register(Reg8::H)), 1, 1),
        0x95 => entry(Instruction::Alu(AluOp::Sub, Operand::Register(Reg8::L)), 1, 1),
        0x96 => entry(Instruction::Alu(AluOp::Sub, Operand::IndirectHL), 1, 2),
        0x97 => entry(Instruction::Alu(AluOp::Sub, Operand::Register(Reg8::A)), 1, 1),
        0x98 => entry(Instruction::Alu(AluOp::Sbc, Operand::Register(Reg8::B)), 1, 1),
        0x99 => entry(Instruction::Alu(AluOp::Sbc, Operand::Register(Reg8::C)), 1, 1),
        0x9A => entry(Instruction::Alu(AluOp::Sbc, Operand::Register(Reg8::D)), 1, 1),
        0x9B => entry(Instruction::Alu(AluOp::Sbc, Operand::Register(Reg8::E)), 1, 1),
        0x9C => entry(Instruction::Alu(AluOp::Sbc, Operand::Register(Reg8::H)), 1, 1),
        0x9D => entry(Instruction::Alu(AluOp::Sbc, Operand::Register(Reg8::L)), 1, 1),
        0x9E => entry(Instruction::Alu(AluOp::Sbc, Operand::IndirectHL), 1, 2),
        0x9F => entry(Instruction::Alu(AluOp::Sbc, Operand::Register(Reg8::A)), 1, 1),
        0xA0 => entry(Instruction::Alu(AluOp::And, Operand::Register(Reg8::B)), 1, 1),
        0xA1 => entry(Instruction::Alu(AluOp::And, Operand::Register(Reg8::C)), 1, 1),
        0xA2 => entry(Instruction::Alu(AluOp::And, Operand::Register(Reg8::D)), 1, 1),
        0xA3 => entry(Instruction::Alu(AluOp::And, Operand::Register(Reg8::E)), 1, 1),
        0xA4 => entry(Instruction::Alu(AluOp::And, Operand::Register(Reg8::H)), 1, 1),
        0xA5 => entry(Instruction::Alu(AluOp::And, Operand::Register(Reg8::L)), 1, 1),
        0xA6 => entry(Instruction::Alu(AluOp::And, Operand::IndirectHL), 1, 2),
        0xA7 => entry(Instruction::Alu(AluOp::And, Operand::Register(Reg8::A)), 1, 1),
        0xA8 => entry(Instruction::Alu(AluOp::Xor, Operand::Register(Reg8::B)), 1, 1),
        0xA9 => entry(Instruction::Alu(AluOp::Xor, Operand::Register(Reg8::C)), 1, 1),
        0xAA => entry(Instruction::Alu(AluOp::Xor, Operand::Register(Reg8::D)), 1, 1),
        0xAB => entry(Instruction::Alu(AluOp::Xor, Operand::Register(Reg8::E)), 1, 1),
        0xAC => entry(Instruction::Alu(AluOp::Xor, Operand::Register(Reg8::H)), 1, 1),
        0xAD => entry(Instruction::Alu(AluOp::Xor, Operand::Register(Reg8::L)), 1, 1),
        0xAE => entry(Instruction::Alu(AluOp::Xor, Operand::IndirectHL), 1, 2),
        0xAF => entry(Instruction::Alu(AluOp::Xor, Operand::Register(Reg8::A)), 1, 1),
        0xB0 => entry(Instruction::Alu(AluOp::Or, Operand::Register(Reg8::B)), 1, 1),
        0xB1 => entry(Instruction::Alu(AluOp::Or, Operand::Register(Reg8::C)), 1, 1),
        0xB2 => entry(Instruction::Alu(AluOp::Or, Operand::Register(Reg8::D)), 1, 1),
        0xB3 => entry(Instruction::Alu(AluOp::Or, Operand::Register(Reg8::E)), 1, 1),
        0xB4 => entry(Instruction::Alu(AluOp::Or, Operand::Register(Reg8::H)), 1, 1),
        0xB5 => entry(Instruction::Alu(AluOp::Or, Operand::Register(Reg8::L)), 1, 1),
        0xB6 => entry(Instruction::Alu(AluOp::Or, Operand::IndirectHL), 1, 2),
        0xB7 => entry(Instruction::Alu(AluOp::Or, Operand::Register(Reg8::A)), 1, 1),
        0xB8 => entry(Instruction::Alu(AluOp::Cp, Operand::Register(Reg8::B)), 1, 1),
        0xB9 => entry(Instruction::Alu(AluOp::Cp, Operand::Register(Reg8::C)), 1, 1),
        0xBA => entry(Instruction::Alu(AluOp::Cp, Operand::Register(Reg8::D)), 1, 1),
        0xBB => entry(Instruction::Alu(AluOp::Cp, Operand::Register(Reg8::E)), 1, 1),
        0xBC => entry(Instruction::Alu(AluOp::Cp, Operand::Register(Reg8::H)), 1, 1),
        0xBD => entry(Instruction::Alu(AluOp::Cp, Operand::Register(Reg8::L)), 1, 1),
        0xBE => entry(Instruction::Alu(AluOp::Cp, Operand::IndirectHL), 1, 2),
        0xBF => entry(Instruction::Alu(AluOp::Cp, Operand::Register(Reg8::A)), 1, 1),
        _ => unreached(),
    }
}

/// The last block of the primary table: absolute jumps, loads through
/// ports and absolute addresses, arithmetic and logic on an immediate.
fn decode_control_block(byte: u8) -> (entry: Entry)
    requires
        0xC0 <= byte <= 0xFF,
    ensures
        entry == standard_entry(byte, false),
{
    proof {
        lemma_opcode_fields(byte);
    }
    match byte {
        // Return if not zero.
        0xC0 => entry(Instruction::Extension, 1, 1),
        // Pop BC.
        0xC1 => entry(Instruction::Extension, 1, 1),
        0xC2 => branch_entry(Instruction::Jump(Condition::NotZero), 3, 3, 1),
        0xC3 => entry(Instruction::Jump(Condition::Always), 3, 4),
        // Call if not zero.
        0xC4 => entry(Instruction::Extension, 1, 1),
        // Push BC.
        0xC5 => entry(Instruction::Extension, 1, 1),
        0xC6 => entry(Instruction::Alu(AluOp::Add, Operand::Immediate8), 2, 2),
        // Restart.
        0xC7 => entry(Instruction::Extension, 1, 1),
        // Return if zero.
        0xC8 => entry(Instruction::Extension, 1, 1),
        // Return.
        0xC9 => entry(Instruction::Extension, 1, 1),
        0xCA => branch_entry(Instruction::Jump(Condition::Zero), 3, 3, 1),
        // The prefix.
        0xCB => entry(Instruction::Extension, 1, 1),
        // Call if zero.
        0xCC => entry(Instruction::Extension, 1, 1),
        // Call.
        0xCD => entry(Instruction::Extension, 1, 1),
        0xCE => entry(Instruction::Alu(AluOp::Adc, Operand::Immediate8), 2, 2),
        // Restart.
        0xCF => entry(Instruction::Extension, 1, 1),
        // Return if not carry.
        0xD0 => entry(Instruction::Extension, 1, 1),
        // Pop DE.
        0xD1 => entry(Instruction::Extension, 1, 1),
        0xD2 => branch_entry(Instruction::Jump(Condition::NotCarry), 3, 3, 1),
        // Unassigned.
        0xD3 => entry(Instruction::Extension, 1, 1),
        // Call if not carry.
        0xD4 => entry(Instruction::Extension, 1, 1),
        // Push DE.
        0xD5 => entry(Instruction::Extension, 1, 1),
        0xD6 => entry(Instruction::Alu(AluOp::Sub, Operand::Immediate8), 2, 2),
        // Restart.
        0xD7 => entry(Instruction::Extension, 1, 1),
        // Return if carry.
        0xD8 => entry(Instruction::Extension, 1, 1),
        // Return from interrupt.
        0xD9 => entry(Instruction::Extension, 1, 1),
        0xDA => branch_entry(Instruction::Jump(Condition::Carry), 3, 3, 1),
        // Unassigned.
        0xDB => entry(Instruction::Extension, 1, 1),
        // Call if carry.
        0xDC => entry(Instruction::Extension, 1, 1),
        // Unassigned.
        0xDD => entry(Instruction::Extension, 1, 1),
        0xDE => entry(Instruction::Alu(AluOp::Sbc, Operand::Immediate8), 2, 2),
        // Restart.
        0xDF => entry(Instruction::Extension, 1, 1),
        0xE0 => entry(Instruction::Load { dst: Operand::IoImmediate, src: Operand::Register(Reg8::A) }, 2, 3),
        // Pop HL.
        0xE1 => entry(Instruction::Extension, 1, 1),
        0xE2 => entry(Instruction::Load { dst: Operand::IoC, src: Operand::Register(Reg8::A) }, 1, 2),
        // Unassigned.
        0xE3 => entry(Instruction::Extension, 1, 1),
        // Unassigned.
        0xE4 => entry(Instruction::Extension, 1, 1),
        // Push HL.
        0xE5 => entry(Instruction::Extension, 1, 1),
        0xE6 => entry(Instruction::Alu(AluOp::And, Operand::Immediate8), 2, 2),
        // Restart.
        0xE7 => entry(Instruction::Extension, 1, 1),
        // Add to SP.
        0xE8 => entry(Instruction::Extension, 1, 1),
        0xE9 => entry(Instruction::JumpHl, 1, 1),
        0xEA => entry(Instruction::Load { dst: Operand::Absolute, src: Operand::Register(Reg8::A) }, 3, 4),
        // Unassigned.
        0xEB => entry(Instruction::Extension, 1, 1),
        // Unassigned.
        0xEC => entry(Instruction::Extension, 1, 1),
        // Unassigned.
        0xED => entry(Instruction::Extension, 1, 1),
        0xEE => entry(Instruction::Alu(AluOp::Xor, Operand::Immediate8), 2, 2),
        // Restart.
        0xEF => entry(Instruction::Extension, 1, 1),
        0xF0 => entry(Instruction::Load { dst: Operand::Register(Reg8::A), src: Operand::IoImmediate }, 2, 3),
        // Pop AF.
        0xF1 => entry(Instruction::Extension, 1, 1),
        0xF2 => entry(Instruction::Load { dst: Operand::Register(Reg8::A), src: Operand::IoC }, 1, 2),
        // Disable interrupts.
        0xF3 => entry(Instruction::Extension, 1, 1),
        // Unassigned.
        0xF4 => entry(Instruction::Extension, 1, 1),
        // Push AF.
        0xF5 => entry(Instruction::Extension, 1, 1),
        0xF6 => entry(Instruction::Alu(AluOp::Or, Operand::Immediate8), 2, 2),
        // Restart.
        0xF7 => entry(Instruction::Extension, 1, 1),
        // Load HL with SP plus offset.
        0xF8 => entry(Instruction::Extension, 1, 1),
        0xF9 => entry(Instruction::LoadSpHl, 1, 2),
        0xFA => entry(Instruction::Load { dst: Operand::Register(Reg8::A), src: Operand::Absolute }, 3, 4),
        // Enable interrupts.
        0xFB => entry(Instruction::Extension, 1, 1),
        // Unassigned.
        0xFC => entry(Instruction::Extension, 1, 1),
        // Unassigned.
        0xFD => entry(Instruction::Extension, 1, 1),
        0xFE => entry(Instruction::Alu(AluOp::Cp, Operand::Immediate8), 2, 2),
        // Restart.
        0xFF => entry(Instruction::Extension, 1, 1),
        _ => unreached(),
    }
}

/// The first block of the extended table: rotations, shifts and swap.
fn decode_shift_block(byte: u8) -> (entry: Entry)
    requires
        0x00 <= byte <= 0x3F,
    ensures
        entry == standard_entry(byte, true),
{
    proof {
        lemma_opcode_fields(byte);
    }
    match byte {
        0x00 => entry(Instruction::Shift(ShiftOp::Rlc, Operand::Register(Reg8::B)), 2, 2),
        0x01 => entry(Instruction::Shift(ShiftOp::Rlc, Operand::Register(Reg8::C)), 2, 2),
        0x02 => entry(Instruction::Shift(ShiftOp::Rlc, Operand::Register(Reg8::D)), 2, 2),
        0x03 => entry(Instruction::Shift(ShiftOp::Rlc, Operand::Register(Reg8::E)), 2, 2),
        0x04 => entry(Instruction::Shift(ShiftOp::Rlc, Operand::Register(Reg8::H)), 2, 2),
        0x05 => entry(Instruction::Shift(ShiftOp::Rlc, Operand::Register(Reg8::L)), 2, 2),
        0x06 => entry(Instruction::Shift(ShiftOp::Rlc, Operand::IndirectHL), 2, 4),
        0x07 => entry(Instruction::Shift(ShiftOp::Rlc, Operand::Register(Reg8::A)), 2, 2),
        0x08 => entry(Instruction::Shift(ShiftOp::Rrc, Operand::Register(Reg8::B)), 2, 2),
        0x09 => entry(Instruction::Shift(ShiftOp::Rrc, Operand::Register(Reg8::C)), 2, 2),
        0x0A => entry(Instruction::Shift(ShiftOp::Rrc, Operand::Register(Reg8::D)), 2, 2),
        0x0B => entry(Instruction::Shift(ShiftOp::Rrc, Operand::Register(Reg8::E)), 2, 2),
        0x0C => entry(Instruction::Shift(ShiftOp::Rrc, Operand::Register(Reg8::H)), 2, 2),
        0x0D => entry(Instruction::Shift(ShiftOp::Rrc, Operand::Register(Reg8::L)), 2, 2),
        0x0E => entry(Instruction::Shift(ShiftOp::Rrc, Operand::IndirectHL), 2, 4),
        0x0F => entry(Instruction::Shift(ShiftOp::Rrc, Operand::Register(Reg8::A)), 2, 2),
        0x10 => entry(Instruction::Shift(ShiftOp::Rl, Operand::Register(Reg8::B)), 2, 2),
        0x11 => entry(Instruction::Shift(ShiftOp::Rl, Operand::Register(Reg8::C)), 2, 2),
        0x12 => entry(Instruction::Shift(ShiftOp::Rl, Operand::Register(Reg8::D)), 2, 2),
        0x13 => entry(Instruction::Shift(ShiftOp::Rl, Operand::Register(Reg8::E)), 2, 2),
        0x14 => entry(Instruction::Shift(ShiftOp::Rl, Operand::Register(Reg8::H)), 2, 2),
        0x15 => entry(Instruction::Shift(ShiftOp::Rl, Operand::Register(Reg8::L)), 2, 2),
        0x16 => entry(Instruction::Shift(ShiftOp::Rl, Operand::IndirectHL), 2, 4),
        0x17 => entry(Instruction::Shift(ShiftOp::Rl, Operand::Register(Reg8::A)), 2, 2),
        0x18 => entry(Instruction::Shift(ShiftOp::Rr, Operand::Register(Reg8::B)), 2, 2),
        0x19 => entry(Instruction::Shift(ShiftOp::Rr, Operand::Register(Reg8::C)), 2, 2),
        0x1A => entry(Instruction::Shift(ShiftOp::Rr, Operand::Register(Reg8::D)), 2, 2),
        0x1B => entry(Instruction::Shift(ShiftOp::Rr, Operand::Register(Reg8::E)), 2, 2),
        0x1C => entry(Instruction::Shift(ShiftOp::Rr, Operand::Register(Reg8::H)), 2, 2),
        0x1D => entry(Instruction::Shift(ShiftOp::Rr, Operand::Register(Reg8::L)), 2, 2),
        0x1E => entry(Instruction::Shift(ShiftOp::Rr, Operand::IndirectHL), 2, 4),
        0x1F => entry(Instruction::Shift(ShiftOp::Rr, Operand::Register(Reg8::A)), 2, 2),
        0x20 => entry(Instruction::Shift(ShiftOp::Sla, Operand::Register(Reg8::B)), 2, 2),
        0x21 => entry(Instruction::Shift(ShiftOp::Sla, Operand::Register(Reg8::C)), 2, 2),
        0x22 => entry(Instruction::Shift(ShiftOp::Sla, Operand::Register(Reg8::D)), 2, 2),
        0x23 => entry(Instruction::Shift(ShiftOp::Sla, Operand::Register(Reg8::E)), 2, 2),
        0x24 => entry(Instruction::Shift(ShiftOp::Sla, Operand::Register(Reg8::H)), 2, 2),
        0x25 => entry(Instruction::Shift(ShiftOp::Sla, Operand::Register(Reg8::L)), 2, 2),
        0x26 => entry(Instruction::Shift(ShiftOp::Sla, Operand::IndirectHL), 2, 4),
        0x27 => entry(Instruction::Shift(ShiftOp::Sla, Operand::Register(Reg8::A)), 2, 2),
        0x28 => entry(Instruction::Shift(ShiftOp::Sra, Operand::Register(Reg8::B)), 2, 2),
        0x29 => entry(Instruction::Shift(ShiftOp::Sra, Operand::Register(Reg8::C)), 2, 2),
        0x2A => entry(Instruction::Shift(ShiftOp::Sra, Operand::Register(Reg8::D)), 2, 2),
        0x2B => entry(Instruction::Shift(ShiftOp::Sra, Operand::Register(Reg8::E)), 2, 2),
        0x2C => entry(Instruction::Shift(ShiftOp::Sra, Operand::Register(Reg8::H)), 2, 2),
        0x2D => entry(Instruction::Shift(ShiftOp::Sra, Operand::Register(Reg8::L)), 2, 2),
        0x2E => entry(Instruction::Shift(ShiftOp::Sra, Operand::IndirectHL), 2, 4),
        0x2F => entry(Instruction::Shift(ShiftOp::Sra, Operand::Register(Reg8::A)), 2, 2),
        0x30 => entry(Instruction::Shift(ShiftOp::Swap, Operand::Register(Reg8::B)), 2, 2),
        0x31 => entry(Instruction::Shift(ShiftOp::Swap, Operand::Register(Reg8::C)), 2, 2),
        0x32 => entry(Instruction::Shift(ShiftOp::Swap, Operand::Register(Reg8::D)), 2, 2),
        0x33 => entry(Instruction::Shift(ShiftOp::Swap, Operand::Register(Reg8::E)), 2, 2),
        0x34 => entry(Instruction::Shift(ShiftOp::Swap, Operand::Register(Reg8::H)), 2, 2),
        0x35 => entry(Instruction::Shift(ShiftOp::Swap, Operand::Register(Reg8::L)), 2, 2),
        0x36 => entry(Instruction::Shift(ShiftOp::Swap, Operand::IndirectHL), 2, 4),
        0x37 => entry(Instruction::Shift(ShiftOp::Swap, Operand::Register(Reg8::A)), 2, 2),
        0x38 => entry(Instruction::Shift(ShiftOp::Srl, Operand::Register(Reg8::B)), 2, 2),
        0x39 => entry(Instruction::Shift(ShiftOp::Srl, Operand::Register(Reg8::C)), 2, 2),
        0x3A => entry(Instruction::Shift(ShiftOp::Srl, Operand::Register(Reg8::D)), 2, 2),
        0x3B => entry(Instruction::Shift(ShiftOp::Srl, Operand::Register(Reg8::E)), 2, 2),
        0x3C => entry(Instruction::Shift(ShiftOp::Srl, Operand::Register(Reg8::H)), 2, 2),
        0x3D => entry(Instruction::Shift(ShiftOp::Srl, Operand::Register(Reg8::L)), 2, 2),
        0x3E => entry(Instruction::Shift(ShiftOp::Srl, Operand::IndirectHL), 2, 4),
        0x3F => entry(Instruction::Shift(ShiftOp::Srl, Operand::Register(Reg8::A)), 2, 2),
        _ => unreached(),
    }
}

/// The second block of the extended table: bit tests.
fn decode_test_block(byte: u8) -> (entry: Entry)
    requires
        0x40 <= byte <= 0x7F,
    ensures
        entry == standard_entry(byte, true),
{
    proof {
        lemma_opcode_fields(byte);
    }
    match byte {
        0x40 => entry(Instruction::TestBit(BitPosition::B0, Operand::Register(Reg8::B)), 2, 2),
        0x41 => entry(Instruction::TestBit(BitPosition::B0, Operand::Register(Reg8::C)), 2, 2),
        0x42 => entry(Instruction::TestBit(BitPosition::B0, Operand::Register(Reg8::D)), 2, 2),
        0x43 => entry(Instruction::TestBit(BitPosition::B0, Operand::Register(Reg8::E)), 2, 2),
        0x44 => entry(Instruction::TestBit(BitPosition::B0, Operand::Register(Reg8::H)), 2, 2),
        0x45 => entry(Instruction::TestBit(BitPosition::B0, Operand::Register(Reg8::L)), 2, 2),
        0x46 => entry(Instruction::TestBit(BitPosition::B0, Operand::IndirectHL), 2, 3),
        0x47 => entry(Instruction::TestBit(BitPosition::B0, Operand::Register(Reg8::A)), 2, 2),
        0x48 => entry(Instruction::TestBit(BitPosition::B1, Operand::Register(Reg8::B)), 2, 2),
        0x49 => entry(Instruction::TestBit(BitPosition::B1, Operand::Register(Reg8::C)), 2, 2),
        0x4A => entry(Instruction::TestBit(BitPosition::B1, Operand::Register(Reg8::D)), 2, 2),
        0x4B => entry(Instruction::TestBit(BitPosition::B1, Operand::Register(Reg8::E)), 2, 2),
        0x4C => entry(Instruction::TestBit(BitPosition::B1, Operand::Register(Reg8::H)), 2, 2),
        0x4D => entry(Instruction::TestBit(BitPosition::B1, Operand::Register(Reg8::L)), 2, 2),
        0x4E => entry(Instruction::TestBit(BitPosition::B1, Operand::IndirectHL), 2, 3),
        0x4F => entry(Instruction::TestBit(BitPosition::B1, Operand::Register(Reg8::A)), 2, 2),
        0x50 => entry(Instruction::TestBit(BitPosition::B2, Operand::Register(Reg8::B)), 2, 2),
        0x51 => entry(Instruction::TestBit(BitPosition::B2, Operand::Register(Reg8::C)), 2, 2),
        0x52 => entry(Instruction::TestBit(BitPosition::B2, Operand::Register(Reg8::D)), 2, 2),
        0x53 => entry(Instruction::TestBit(BitPosition::B2, Operand::Register(Reg8::E)), 2, 2),
        0x54 => entry(Instruction::TestBit(BitPosition::B2, Operand::Register(Reg8::H)), 2, 2),
        0x55 => entry(Instruction::TestBit(BitPosition::B2, Operand::Register(Reg8::L)), 2, 2),
        0x56 => entry(Instruction::TestBit(BitPosition::B2, Operand::IndirectHL), 2, 3),
        0x57 => entry(Instruction::TestBit(BitPosition::B2, Operand::Register(Reg8::A)), 2, 2),
        0x58 => entry(Instruction::TestBit(BitPosition::B3, Operand::Register(Reg8::B)), 2, 2),
        0x59 => entry(Instruction::TestBit(BitPosition::B3, Operand::Register(Reg8::C)), 2, 2),
        0x5A => entry(Instruction::TestBit(BitPosition::B3, Operand::Register(Reg8::D)), 2, 2),
        0x5B => entry(Instruction::TestBit(BitPosition::B3, Operand::Register(Reg8::E)), 2, 2),
        0x5C => entry(Instruction::TestBit(BitPosition::B3, Operand::Register(Reg8::H)), 2, 2),
        0x5D => entry(Instruction::TestBit(BitPosition::B3, Operand::Register(Reg8::L)), 2, 2),
        0x5E => entry(Instruction::TestBit(BitPosition::B3, Operand::IndirectHL), 2, 3),
        0x5F => entry(Instruction::TestBit(BitPosition::B3, Operand::Register(Reg8::A)), 2, 2),
        0x60 => entry(Instruction::TestBit(BitPosition::B4, Operand::Register(Reg8::B)), 2, 2),
        0x61 => entry(Instruction::TestBit(BitPosition::B4, Operand::Register(Reg8::C)), 2, 2),
        0x62 => entry(Instruction::TestBit(BitPosition::B4, Operand::Register(Reg8::D)), 2, 2),
        0x63 => entry(Instruction::TestBit(BitPosition::B4, Operand::Register(Reg8::E)), 2, 2),
        0x64 => entry(Instruction::TestBit(BitPosition::B4, Operand::Register(Reg8::H)), 2, 2),
        0x65 => entry(Instruction::TestBit(BitPosition::B4, Operand::Register(Reg8::L)), 2, 2),
        0x66 => entry(Instruction::TestBit(BitPosition::B4, Operand::IndirectHL), 2, 3),
        0x67 => entry(Instruction::TestBit(BitPosition::B4, Operand::Register(Reg8::A)), 2, 2),
        0x68 => entry(Instruction::TestBit(BitPosition::B5, Operand::Register(Reg8::B)), 2, 2),
        0x69 => entry(Instruction::TestBit(BitPosition::B5, Operand::Register(Reg8::C)), 2, 2),
        0x6A => entry(Instruction::TestBit(BitPosition::B5, Operand::Register(Reg8::D)), 2, 2),
        0x6B => entry(Instruction::TestBit(BitPosition::B5, Operand::Register(Reg8::E)), 2, 2),
        0x6C => entry(Instruction::TestBit(BitPosition::B5, Operand::Register(Reg8::H)), 2, 2),
        0x6D => entry(Instruction::TestBit(BitPosition::B5, Operand::Register(Reg8::L)), 2, 2),
        0x6E => entry(Instruction::TestBit(BitPosition::B5, Operand::IndirectHL), 2, 3),
        0x6F => entry(Instruction::TestBit(BitPosition::B5, Operand::Register(Reg8::A)), 2, 2),
        0x70 => entry(Instruction::TestBit(BitPosition::B6, Operand::Register(Reg8::B)), 2, 2),
        0x71 => entry(Instruction::TestBit(BitPosition::B6, Operand::Register(Reg8::C)), 2, 2),
        0x72 => entry(Instruction::TestBit(BitPosition::B6, Operand::Register(Reg8::D)), 2, 2),
        0x73 => entry(Instruction::TestBit(BitPosition::B6, Operand::Register(Reg8::E)), 2, 2),
        0x74 => entry(Instruction::TestBit(BitPosition::B6, Operand::Register(Reg8::H)), 2, 2),
        0x75 => entry(Instruction::TestBit(BitPosition::B6, Operand::Register(Reg8::L)), 2, 2),
        0x76 => entry(Instruction::TestBit(BitPosition::B6, Operand::IndirectHL), 2, 3),
        0x77 => entry(Instruction::TestBit(BitPosition::B6, Operand::Register(Reg8::A)), 2, 2),
        0x78 => entry(Instruction::TestBit(BitPosition::B7, Operand::Register(Reg8::B)), 2, 2),
        0x79 => entry(Instruction::TestBit(BitPosition::B7, Operand::Register(Reg8::C)), 2, 2),
        0x7A => entry(Instruction::TestBit(BitPosition::B7, Operand::Register(Reg8::D)), 2, 2),
        0x7B => entry(Instruction::TestBit(BitPosition::B7, Operand::Register(Reg8::E)), 2, 2),
        0x7C => entry(Instruction::TestBit(BitPosition::B7, Operand::Register(Reg8::H)), 2, 2),
        0x7D => entry(Instruction::TestBit(BitPosition::B7, Operand::Register(Reg8::L)), 2, 2),
        0x7E => entry(Instruction::TestBit(BitPosition::B7, Operand::IndirectHL), 2, 3),
        0x7F => entry(Instruction::TestBit(BitPosition::B7, Operand::Register(Reg8::A)), 2, 2),
        _ => unreached(),
    }
}

/// The third block of the extended table: bit resets.
fn decode_reset_block(byte: u8) -> (entry: Entry)
    requires
        0x80 <= byte <= 0xBF,
    ensures
        entry == standard_entry(byte, true),
{
    proof {
        lemma_opcode_fields(byte);
    }
    match byte {
        0x80 => entry(Instruction::ResetBit(BitPosition::B0, Operand::Register(Reg8::B)), 2, 2),
        0x81 => entry(Instruction::ResetBit(BitPosition::B0, Operand::Register(Reg8::C)), 2, 2),
        0x82 => entry(Instruction::ResetBit(BitPosition::B0, Operand::Register(Reg8::D)), 2, 2),
        0x83 => entry(Instruction::ResetBit(BitPosition::B0, Operand::Register(Reg8::E)), 2, 2),
        0x84 => entry(Instruction::ResetBit(BitPosition::B0, Operand::Register(Reg8::H)), 2, 2),
        0x85 => entry(Instruction::ResetBit(BitPosition::B0, Operand::Register(Reg8::L)), 2, 2),
        0x86 => entry(Instruction::ResetBit(BitPosition::B0, Operand::IndirectHL), 2, 4),
        0x87 => entry(Instruction::ResetBit(BitPosition::B0, Operand::Register(Reg8::A)), 2, 2),
        0x88 => entry(Instruction::ResetBit(BitPosition::B1, Operand::Register(Reg8::B)), 2, 2),
        0x89 => entry(Instruction::ResetBit(BitPosition::B1, Operand::Register(Reg8::C)), 2, 2),
        0x8A => entry(Instruction::ResetBit(BitPosition::B1, Operand::Register(Reg8::D)), 2, 2),
        0x8B => entry(Instruction::ResetBit(BitPosition::B1, Operand::Register(Reg8::E)), 2, 2),
        0x8C => entry(Instruction::ResetBit(BitPosition::B1, Operand::Register(Reg8::H)), 2, 2),
        0x8D => entry(Instruction::ResetBit(BitPosition::B1, Operand::Register(Reg8::L)), 2, 2),
        0x8E => entry(Instruction::ResetBit(BitPosition::B1, Operand::IndirectHL), 2, 4),
        0x8F => entry(Instruction::ResetBit(BitPosition::B1, Operand::Register(Reg8::A)), 2, 2),
        0x90 => entry(Instruction::ResetBit(BitPosition::B2, Operand::Register(Reg8::B)), 2, 2),
        0x91 => entry(Instruction::ResetBit(BitPosition::B2, Operand::Register(Reg8::C)), 2, 2),
        0x92 => entry(Instruction::ResetBit(BitPosition::B2, Operand::Register(Reg8::D)), 2, 2),
        0x93 => entry(Instruction::ResetBit(BitPosition::B2, Operand::Register(Reg8::E)), 2, 2),
        0x94 => entry(Instruction::ResetBit(BitPosition::B2, Operand::Register(Reg8::H)), 2, 2),
        0x95 => entry(Instruction::ResetBit(BitPosition::B2, Operand::Register(Reg8::L)), 2, 2),
        0x96 => entry(Instruction::ResetBit(BitPosition::B2, Operand::IndirectHL), 2, 4),
        0x97 => entry(Instruction::ResetBit(BitPosition::B2, Operand::Register(Reg8::A)), 2, 2),
        0x98 => entry(Instruction::ResetBit(BitPosition::B3, Operand::Register(Reg8::B)), 2, 2),
        0x99 => entry(Instruction::ResetBit(BitPosition::B3, Operand::Register(Reg8::C)), 2, 2),
        0x9A => entry(Instruction::ResetBit(BitPosition::B3, Operand::Register(Reg8::D)), 2, 2),
        0x9B => entry(Instruction::ResetBit(BitPosition::B3, Operand::Register(Reg8::E)), 2, 2),
        0x9C => entry(Instruction::ResetBit(BitPosition::B3, Operand::Register(Reg8::H)), 2, 2),
        0x9D => entry(Instruction::ResetBit(BitPosition::B3, Operand::Register(Reg8::L)), 2, 2),
        0x9E => entry(Instruction::ResetBit(BitPosition::B3, Operand::IndirectHL), 2, 4),
        0x9F => entry(Instruction::ResetBit(BitPosition::B3, Operand::Register(Reg8::A)), 2, 2),
        0xA0 => entry(Instruction::ResetBit(BitPosition::B4, Operand::Register(Reg8::B)), 2, 2),
        0xA1 => entry(Instruction::ResetBit(BitPosition::B4, Operand::Register(Reg8::C)), 2, 2),
        0xA2 => entry(Instruction::ResetBit(BitPosition::B4, Operand::Register(Reg8::D)), 2, 2),
        0xA3 => entry(Instruction::ResetBit(BitPosition::B4, Operand::Register(Reg8::E)), 2, 2),
        0xA4 => entry(Instruction::ResetBit(BitPosition::B4, Operand::Register(Reg8::H)), 2, 2),
        0xA5 => entry(Instruction::ResetBit(BitPosition::B4, Operand::Register(Reg8::L)), 2, 2),
        0xA6 => entry(Instruction::ResetBit(BitPosition::B4, Operand::IndirectHL), 2, 4),
        0xA7 => entry(Instruction::ResetBit(BitPosition::B4, Operand::Register(Reg8::A)), 2, 2),
        0xA8 => entry(Instruction::ResetBit(BitPosition::B5, Operand::Register(Reg8::B)), 2, 2),
        0xA9 => entry(Instruction::ResetBit(BitPosition::B5, Operand::Register(Reg8::C)), 2, 2),
        0xAA => entry(Instruction::ResetBit(BitPosition::B5, Operand::Register(Reg8::D)), 2, 2),
        0xAB => entry(Instruction::ResetBit(BitPosition::B5, Operand::Register(Reg8::E)), 2, 2),
        0xAC => entry(Instruction::ResetBit(BitPosition::B5, Operand::Register(Reg8::H)), 2, 2),
        0xAD => entry(Instruction::ResetBit(BitPosition::B5, Operand::Register(Reg8::L)), 2, 2),
        0xAE => entry(Instruction::ResetBit(BitPosition::B5, Operand::IndirectHL), 2, 4),
        0xAF => entry(Instruction::ResetBit(BitPosition::B5, Operand::Register(Reg8::A)), 2, 2),
        0xB0 => entry(Instruction::ResetBit(BitPosition::B6, Operand::Register(Reg8::B)), 2, 2),
        0xB1 => entry(Instruction::ResetBit(BitPosition::B6, Operand::Register(Reg8::C)), 2, 2),
        0xB2 => entry(Instruction::ResetBit(BitPosition::B6, Operand::Register(Reg8::D)), 2, 2),
        0xB3 => entry(Instruction::ResetBit(BitPosition::B6, Operand::Register(Reg8::E)), 2, 2),
        0xB4 => entry(Instruction::ResetBit(BitPosition::B6, Operand::Register(Reg8::H)), 2, 2),
        0xB5 => entry(Instruction::ResetBit(BitPosition::B6, Operand::Register(Reg8::L)), 2, 2),
        0xB6 => entry(Instruction::ResetBit(BitPosition::B6, Operand::IndirectHL), 2, 4),
        0xB7 => entry(Instruction::ResetBit(BitPosition::B6, Operand::Register(Reg8::A)), 2, 2),
        0xB8 => entry(Instruction::ResetBit(BitPosition::B7, Operand::Register(Reg8::B)), 2, 2),
        0xB9 => entry(Instruction::ResetBit(BitPosition::B7, Operand::Register(Reg8::C)), 2, 2),
        0xBA => entry(Instruction::ResetBit(BitPosition::B7, Operand::Register(Reg8::D)), 2, 2),
        0xBB => entry(Instruction::ResetBit(BitPosition::B7, Operand::Register(Reg8::E)), 2, 2),
        0xBC => entry(Instruction::ResetBit(BitPosition::B7, Operand::Register(Reg8::H)), 2, 2),
        0xBD => entry(Instruction::ResetBit(BitPosition::B7, Operand::Register(Reg8::L)), 2, 2),
        0xBE => entry(Instruction::ResetBit(BitPosition::B7, Operand::IndirectHL), 2, 4),
        0xBF => entry(Instruction::ResetBit(BitPosition::B7, Operand::Register(Reg8::A)), 2, 2),
        _ => unreached(),
    }
}

/// The last block of the extended table: bit sets.
fn decode_set_block(byte: u8) -> (entry: Entry)
    requires
        0xC0 <= byte <= 0xFF,
    ensures
        entry == standard_entry(byte, true),
{
    proof {
        lemma_opcode_fields(byte);
    }
    match byte {
        0xC0 => entry(Instruction::SetBit(BitPosition::B0, Operand::Register(Reg8::B)), 2, 2),
        0xC1 => entry(Instruction::SetBit(BitPosition::B0, Operand::Register(Reg8::C)), 2, 2),
        0xC2 => entry(Instruction::SetBit(BitPosition::B0, Operand::Register(Reg8::D)), 2, 2),
        0xC3 => entry(Instruction::SetBit(BitPosition::B0, Operand::Register(Reg8::E)), 2, 2),
        0xC4 => entry(Instruction::SetBit(BitPosition::B0, Operand::Register(Reg8::H)), 2, 2),
        0xC5 => entry(Instruction::SetBit(BitPosition::B0, Operand::Register(Reg8::L)), 2, 2),
        0xC6 => entry(Instruction::SetBit(BitPosition::B0, Operand::IndirectHL), 2, 4),
        0xC7 => entry(Instruction::SetBit(BitPosition::B0, Operand::Register(Reg8::A)), 2, 2),
        0xC8 => entry(Instruction::SetBit(BitPosition::B1, Operand::Register(Reg8::B)), 2, 2),
        0xC9 => entry(Instruction::SetBit(BitPosition::B1, Operand::Register(Reg8::C)), 2, 2),
        0xCA => entry(Instruction::SetBit(BitPosition::B1, Operand::Register(Reg8::D)), 2, 2),
        0xCB => entry(Instruction::SetBit(BitPosition::B1, Operand::Register(Reg8::E)), 2, 2),
        0xCC => entry(Instruction::SetBit(BitPosition::B1, Operand::Register(Reg8::H)), 2, 2),
        0xCD => entry(Instruction::SetBit(BitPosition::B1, Operand::Register(Reg8::L)), 2, 2),
        0xCE => entry(Instruction::SetBit(BitPosition::B1, Operand::IndirectHL), 2, 4),
        0xCF => entry(Instruction::SetBit(BitPosition::B1, Operand::Register(Reg8::A)), 2, 2),
        0xD0 => entry(Instruction::SetBit(BitPosition::B2, Operand::Register(Reg8::B)), 2, 2),
        0xD1 => entry(Instruction::SetBit(BitPosition::B2, Operand::Register(Reg8::C)), 2, 2),
        0xD2 => entry(Instruction::SetBit(BitPosition::B2, Operand::Register(Reg8::D)), 2, 2),
        0xD3 => entry(Instruction::SetBit(BitPosition::B2, Operand::Register(Reg8::E)), 2, 2),
        0xD4 => entry(Instruction::SetBit(BitPosition::B2, Operand::Register(Reg8::H)), 2, 2),
        0xD5 => entry(Instruction::SetBit(BitPosition::B2, Operand::Register(Reg8::L)), 2, 2),
        0xD6 => entry(Instruction::SetBit(BitPosition::B2, Operand::IndirectHL), 2, 4),
        0xD7 => entry(Instruction::SetBit(BitPosition::B2, Operand::Register(Reg8::A)), 2, 2),
        0xD8 => entry(Instruction::SetBit(BitPosition::B3, Operand::Register(Reg8::B)), 2, 2),
        0xD9 => entry(Instruction::SetBit(BitPosition::B3, Operand::Register(Reg8::C)), 2, 2),
        0xDA => entry(Instruction::SetBit(BitPosition::B3, Operand::Register(Reg8::D)), 2, 2),
        0xDB => entry(Instruction::SetBit(BitPosition::B3, Operand::Register(Reg8::E)), 2, 2),
        0xDC => entry(Instruction::SetBit(BitPosition::B3, Operand::Register(Reg8::H)), 2, 2),
        0xDD => entry(Instruction::SetBit(BitPosition::B3, Operand::Register(Reg8::L)), 2, 2),
        0xDE => entry(Instruction::SetBit(BitPosition::B3, Operand::IndirectHL), 2, 4),
        0xDF => entry(Instruction::SetBit(BitPosition::B3, Operand::Register(Reg8::A)), 2, 2),
        0xE0 => entry(Instruction::SetBit(BitPosition::B4, Operand::Register(Reg8::B)), 2, 2),
        0xE1 => entry(Instruction::SetBit(BitPosition::B4, Operand::Register(Reg8::C)), 2, 2),
        0xE2 => entry(Instruction::SetBit(BitPosition::B4, Operand::Register(Reg8::D)), 2, 2),
        0xE3 => entry(Instruction::SetBit(BitPosition::B4, Operand::Register(Reg8::E)), 2, 2),
        0xE4 => entry(Instruction::SetBit(BitPosition::B4, Operand::Register(Reg8::H)), 2, 2),
        0xE5 => entry(Instruction::SetBit(BitPosition::B4, Operand::Register(Reg8::L)), 2, 2),
        0xE6 => entry(Instruction::SetBit(BitPosition::B4, Operand::IndirectHL), 2, 4),
        0xE7 => entry(Instruction::SetBit(BitPosition::B4, Operand::Register(Reg8::A)), 2, 2),
        0xE8 => entry(Instruction::SetBit(BitPosition::B5, Operand::Register(Reg8::B)), 2, 2),
        0xE9 => entry(Instruction::SetBit(BitPosition::B5, Operand::Register(Reg8::C)), 2, 2),
        0xEA => entry(Instruction::SetBit(BitPosition::B5, Operand::Register(Reg8::D)), 2, 2),
        0xEB => entry(Instruction::SetBit(BitPosition::B5, Operand::Register(Reg8::E)), 2, 2),
        0xEC => entry(Instruction::SetBit(BitPosition::B5, Operand::Register(Reg8::H)), 2, 2),
        0xED => entry(Instruction::SetBit(BitPosition::B5, Operand::Register(Reg8::L)), 2, 2),
        0xEE => entry(Instruction::SetBit(BitPosition::B5, Operand::IndirectHL), 2, 4),
        0xEF => entry(Instruction::SetBit(BitPosition::B5, Operand::Register(Reg8::A)), 2, 2),
        0xF0 => entry(Instruction::SetBit(BitPosition::B6, Operand::Register(Reg8::B)), 2, 2),
        0xF1 => entry(Instruction::SetBit(BitPosition::B6, Operand::Register(Reg8::C)), 2, 2),
        0xF2 => entry(Instruction::SetBit(BitPosition::B6, Operand::Register(Reg8::D)), 2, 2),
        0xF3 => entry(Instruction::SetBit(BitPosition::B6, Operand::Register(Reg8::E)), 2, 2),
        0xF4 => entry(Instruction::SetBit(BitPosition::B6, Operand::Register(Reg8::H)), 2, 2),
        0xF5 => entry(Instruction::SetBit(BitPosition::B6, Operand::Register(Reg8::L)), 2, 2),
        0xF6 => entry(Instruction::SetBit(BitPosition::B6, Operand::IndirectHL), 2, 4),
        0xF7 => entry(Instruction::SetBit(BitPosition::B6, Operand::Register(Reg8::A)), 2, 2),
        0xF8 => entry(Instruction::SetBit(BitPosition::B7, Operand::Register(Reg8::B)), 2, 2),
        0xF9 => entry(Instruction::SetBit(BitPosition::B7, Operand::Register(Reg8::C)), 2, 2),
        0xFA => entry(Instruction::SetBit(BitPosition::B7, Operand::Register(Reg8::D)), 2, 2),
        0xFB => entry(Instruction::SetBit(BitPosition::B7, Operand::Register(Reg8::E)), 2, 2),
        0xFC => entry(Instruction::SetBit(BitPosition::B7, Operand::Register(Reg8::H)), 2, 2),
        0xFD => entry(Instruction::SetBit(BitPosition::B7, Operand::Register(Reg8::L)), 2, 2),
        0xFE => entry(Instruction::SetBit(BitPosition::B7, Operand::IndirectHL), 2, 4),
        0xFF => entry(Instruction::SetBit(BitPosition::B7, Operand::Register(Reg8::A)), 2, 2),
        _ => unreached(),
    }
}

/// Looks `byte` up in the primary table.
pub fn decode_primary(byte: u8) -> (entry: Entry)
    ensures
        entry == standard_entry(byte, false),
{
    match byte {
        0x00..=0x3F => decode_mixed_block(byte),
        0x40..=0x7F => decode_load_block(byte),
        0x80..=0xBF => decode_alu_block(byte),
        0xC0..=0xFF => decode_control_block(byte),
    }
}

/// Looks `byte` up in the extended table.
pub fn decode_extended(byte: u8) -> (entry: Entry)
    ensures
        entry == standard_entry(byte, true),
{
    match byte {
        0x00..=0x3F => decode_shift_block(byte),
        0x40..=0x7F => decode_test_block(byte),
        0x80..=0xBF => decode_reset_block(byte),
        0xC0..=0xFF => decode_set_block(byte),
    }
}

/// Looks `byte` up in the production table: in the extended table if
/// `extended` holds, in the primary table otherwise. Every one of the 512
/// slots is defined.
pub fn decode(byte: u8, extended: bool) -> (entry: Entry)
    ensures
        entry == standard_entry(byte, extended),
{
    if extended {
        decode_extended(byte)
    } else {
        decode_primary(byte)
    }
}

/// Why a lookup can fail.
#[derive(Clone, Copy, Debug, PartialEq, Eq, Structural)]
pub enum DecodeError {
    /// The table has no definition for this opcode. The second field says
    /// whether the opcode was looked up in the extended table.
    UnimplementedOpcode(u8, bool),
}

/// A decode table as data: 512 slots, each of them either undefined or
/// holding an entry. A table under construction may have gaps; looking up
/// a gap is an error, not a fault.
pub struct DecodeTable {
    primary: Vec<Option<Entry>>,
    extended: Vec<Option<Entry>>,
}

impl DecodeTable {
    #[verifier::type_invariant]
    spec fn well_formed(&self) -> bool {
        self.primary@.len() == 256 && self.extended@.len() == 256
    }

    /// What the table holds for `byte` in the table that `extended`
    /// chooses: `None` where the slot is undefined.
    pub closed spec fn slot(&self, byte: u8, extended: bool) -> Option<Entry> {
        if extended {
            self.extended@[byte as int]
        } else {
            self.primary@[byte as int]
        }
    }

    /// Whether every one of the 512 slots is defined.
    pub open spec fn is_complete(&self) -> bool {
        forall|byte: u8, extended: bool| self.slot(byte, extended) is Some
    }

    /// What a lookup gives: the entry where the slot is defined, the error
    /// that names the opcode where it is not.
    pub open spec fn resolve(&self, byte: u8, extended: bool) -> Result<Entry, DecodeError> {
        match self.slot(byte, extended) {
            Some(entry) => Ok(entry),
            None => Err(DecodeError::UnimplementedOpcode(byte, extended)),
        }
    }

    /// A table with no slot defined.
    pub fn empty() -> (table: DecodeTable)
        ensures
            forall|byte: u8, extended: bool| table.slot(byte, extended) is None,
    {
        let mut primary: Vec<Option<Entry>> = Vec::new();
        let mut extended: Vec<Option<Entry>> = Vec::new();
        let mut count: usize = 0;
        while count < 256
            invariant
                count <= 256,
                primary@.len() == count,
                extended@.len() == count,
                forall|i: int| 0 <= i < count ==> primary@[i] is None,
                forall|i: int| 0 <= i < count ==> extended@[i] is None,
            decreases 256 - count,
        {
            primary.push(None);
            extended.push(None);
            count += 1;
        }
        DecodeTable { primary, extended }
    }

    /// The production table: every slot holds the entry of its opcode, so
    /// no lookup in it can fail.
    pub fn production() -> (table: DecodeTable)
        ensures
            forall|byte: u8, extended: bool|
                table.slot(byte, extended) == Some(standard_entry(byte, extended)),
            table.is_complete(),
    {
        let mut table = DecodeTable::empty();
        let mut count: u16 = 0;
        while count < 256
            invariant
                count <= 256,
                forall|byte: u8, extended: bool|
                    table.slot(byte, extended) == if byte < count {
                        Some(standard_entry(byte, extended))
                    } else {
                        None
                    },
            decreases 256 - count,
        {
            let byte = count as u8;
            table.define(byte, false, decode_primary(byte));
            table.define(byte, true, decode_extended(byte));
            count += 1;
        }
        table
    }

    /// Defines the slot of `byte` as `entry`, unless it is defined already:
    /// no slot is written twice. Returns whether the slot was written. No
    /// other slot changes.
    pub fn define(&mut self, byte: u8, extended: bool, entry: Entry) -> (written: bool)
        ensures
            written == (old(self).slot(byte, extended) is None),
            final(self).slot(byte, extended) == if written {
                Some(entry)
            } else {
                old(self).slot(byte, extended)
            },
            forall|b: u8, x: bool|
                b != byte || x != extended ==> final(self).slot(b, x) == old(self).slot(b, x),
    {
        proof {
            use_type_invariant(&*self);
        }
        let index = byte as usize;
        if extended {
            if self.extended[index].is_some() {
                return false;
            }
            self.extended[index] = Some(entry);
        } else {
            if self.primary[index].is_some() {
                return false;
            }
            self.primary[index] = Some(entry);
        }
        true
    }

    /// Looks `byte` up in the table that `extended` chooses. A defined slot
    /// gives its entry; an undefined one gives
    /// `DecodeError::UnimplementedOpcode` with the opcode and the table.
    pub fn lookup(&self, byte: u8, extended: bool) -> (result: Result<Entry, DecodeError>)
        ensures
            result == self.resolve(byte, extended),
    {
        proof {
            use_type_invariant(self);
        }
        let slot = if extended {
            self.extended[byte as usize]
        } else {
            self.primary[byte as usize]
        };
        match slot {
            Some(entry) => Ok(entry),
            None => Err(DecodeError::UnimplementedOpcode(byte, extended)),
        }
    }
}

} // verus!
