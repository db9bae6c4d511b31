//! Decoded instructions: the operation, how its operands are addressed,
//! and what the decoder's table says of its length and cost.

use vstd::prelude::*;
use crate::alu::AluOp;
use crate::bits::{BitPosition, ShiftOp};
use crate::flags::Flags;
use crate::registers::Reg8;

verus! {

/// How an 8-bit operand is found. Every mode but `Register` names a byte
/// of memory.
#[derive(Clone, Copy, Debug, PartialEq, Eq, Structural)]
pub enum Operand {
    /// An 8-bit register.
    Register(Reg8),
    /// The byte after the opcode.
    Immediate8,
    /// The byte at the address held in HL.
    IndirectHL,
    /// The byte at the address held in BC.
    IndirectBC,
    /// The byte at the address held in DE.
    IndirectDE,
    /// The byte at the address held in HL; HL is incremented afterwards.
    IndirectHLInc,
    /// The byte at the address held in HL; HL is decremented afterwards.
    IndirectHLDec,
    /// The I/O port at 0xFF00 plus the byte after the opcode.
    IoImmediate,
    /// The I/O port at 0xFF00 plus register C.
    IoC,
    /// The byte at the 16-bit address after the opcode, low byte first.
    Absolute,
}

/// A 16-bit register that an instruction can name.
#[derive(Clone, Copy, Debug, PartialEq, Eq, Structural)]
pub enum Reg16 {
    BC,
    DE,
    HL,
    SP,
}

/// The condition of a jump, tested on the flags as they are before the
/// instruction runs.
#[derive(Clone, Copy, Debug, PartialEq, Eq, Structural)]
pub enum Condition {
    /// No condition: the jump is always taken.
    Always,
    /// Z is clear.
    NotZero,
    /// Z is set.
    Zero,
    /// C is clear.
    NotCarry,
    /// C is set.
    Carry,
}

/// A decoded instruction.
#[derive(Clone, Copy, Debug, PartialEq, Eq, Structural)]
pub enum Instruction {
    /// No operation.
    Nop,
    /// An opcode that this core leaves to an extension: stack, call and
    /// return, interrupt control, the power states, decimal adjust, stack
    /// pointer arithmetic, the prefix byte looked up by itself, and the
    /// bytes that the encoding does not assign. The core steps over it as
    /// over `Nop`.
    Extension,
    /// Copy the byte at `src` to `dst`.
    Load { dst: Operand, src: Operand },
    /// Load a 16-bit register with the 16-bit value after the opcode.
    LoadImmediate16(Reg16),
    /// Copy HL to SP.
    LoadSpHl,
    /// Store SP at the 16-bit address after the opcode, low byte first.
    StoreSp,
    /// An arithmetic or logic operation on the accumulator and an operand.
    Alu(AluOp, Operand),
    /// Increment the byte at the operand.
    Inc(Operand),
    /// Decrement the byte at the operand.
    Dec(Operand),
    /// Increment a 16-bit register.
    Inc16(Reg16),
    /// Decrement a 16-bit register.
    Dec16(Reg16),
    /// Add a 16-bit register to HL.
    AddHl(Reg16),
    /// Rotate the accumulator left; Z is cleared.
    Rlca,
    /// Rotate the accumulator right; Z is cleared.
    Rrca,
    /// Rotate the accumulator left through the carry; Z is cleared.
    Rla,
    /// Rotate the accumulator right through the carry; Z is cleared.
    Rra,
    /// Complement the accumulator.
    Cpl,
    /// Set the carry flag.
    Scf,
    /// Complement the carry flag.
    Ccf,
    /// Jump to the 16-bit address after the opcode if the condition holds.
    Jump(Condition),
    /// Jump to the address held in HL.
    JumpHl,
    /// Jump by the signed 8-bit displacement after the opcode, counted from
    /// the end of the instruction, if the condition holds.
    JumpRelative(Condition),
    /// Rotate or shift the byte at the operand; Z comes from the result.
    Shift(ShiftOp, Operand),
    /// Test a bit of the byte at the operand.
    TestBit(BitPosition, Operand),
    /// Clear a bit of the byte at the operand.
    ResetBit(BitPosition, Operand),
    /// Set a bit of the byte at the operand.
    SetBit(BitPosition, Operand),
}

/// What the decoder's table holds for one opcode.
#[derive(Clone, Copy, Debug, PartialEq, Eq, Structural)]
pub struct Entry {
    /// The operation and its operands.
    pub instruction: Instruction,
    /// The encoded length in bytes: prefix, opcode and immediate bytes.
    pub length: u16,
    /// The cost in machine cycles; for a conditional jump, the cost when
    /// the jump is not taken.
    pub cycles: u8,
    /// What a conditional jump costs more when it is taken; 0 for every
    /// other instruction.
    pub branch_cycles: u8,
}

/// What one executed instruction reports. The two counts are independent:
/// one is in bytes, the other in machine cycles.
#[derive(Clone, Copy, Debug, PartialEq, Eq, Structural)]
pub struct ExecutionResult {
    /// The encoded length of the instruction.
    pub bytes_consumed: u16,
    /// The machine cycles that the instruction took.
    pub cycles_consumed: u16,
    /// Whether the instruction set the program counter itself.
    pub branch_taken: bool,
}

impl Operand {
    /// The number of immediate bytes that the mode reads after the opcode.
    pub open spec fn immediate_bytes(self) -> int {
        match self {
            Operand::Immediate8 | Operand::IoImmediate => 1,
            Operand::Absolute => 2,
            _ => 0,
        }
    }

    /// The number of memory accesses, beyond fetching the instruction, that
    /// one use of the operand takes.
    pub open spec fn memory_accesses(self) -> int {
        match self {
            Operand::Register(_) | Operand::Immediate8 => 0,
            _ => 1,
        }
    }
}

impl Condition {
    /// Whether the condition holds of `flags`.
    pub open spec fn holds(self, flags: Flags) -> bool {
        match self {
            Condition::Always => true,
            Condition::NotZero => !flags.zero,
            Condition::Zero => flags.zero,
            Condition::NotCarry => !flags.carry,
            Condition::Carry => flags.carry,
        }
    }

    /// Tests the condition on `flags`.
    pub fn test(self, flags: Flags) -> (holds: bool)
        ensures
            holds == self.holds(flags),
    {
        match self {
            Condition::Always => true,
            Condition::NotZero => !flags.zero,
            Condition::Zero => flags.zero,
            Condition::NotCarry => !flags.carry,
            Condition::Carry => flags.carry,
        }
    }
}

impl Instruction {
    /// Whether the instruction is encoded behind the prefix byte.
    pub open spec fn is_extended(self) -> bool {
        match self {
            Instruction::Shift(_, _) | Instruction::TestBit(_, _) | Instruction::ResetBit(_, _)
            | Instruction::SetBit(_, _) => true,
            _ => false,
        }
    }

    /// The encoded length in bytes: one for the opcode, one for the prefix
    /// if there is one, and the immediate bytes of the operands.
    pub open spec fn encoded_length(self) -> int {
        match self {
            Instruction::Load { dst, src } => 1 + dst.immediate_bytes() + src.immediate_bytes(),
            Instruction::LoadImmediate16(_) | Instruction::StoreSp | Instruction::Jump(_) => 3,
            Instruction::JumpRelative(_) => 2,
            Instruction::Alu(_, operand) | Instruction::Inc(operand) | Instruction::Dec(operand) =>
                1 + operand.immediate_bytes(),
            Instruction::Shift(_, operand) | Instruction::TestBit(_, operand) | Instruction::ResetBit(
                _,
                operand,
            ) | Instruction::SetBit(_, operand) => 2 + operand.immediate_bytes(),
            _ => 1,
        }
    }

    /// The cost in machine cycles, for a conditional jump when it is not
    /// taken: one cycle for each encoded byte, one for each further memory
    /// access, and one for each 16-bit register operation.
    pub open spec fn base_cycles(self) -> int {
        match self {
            Instruction::Load { dst, src } => self.encoded_length() + dst.memory_accesses()
                + src.memory_accesses(),
            Instruction::Alu(_, operand) | Instruction::TestBit(_, operand) => self.encoded_length()
                + operand.memory_accesses(),
            Instruction::Inc(operand) | Instruction::Dec(operand) | Instruction::Shift(_, operand)
            | Instruction::ResetBit(_, operand) | Instruction::SetBit(_, operand) => self.encoded_length()
                + 2 * operand.memory_accesses(),
            Instruction::StoreSp => 5,
            Instruction::LoadSpHl | Instruction::Inc16(_) | Instruction::Dec16(_)
            | Instruction::AddHl(_) => 2,
            Instruction::Jump(condition) => if condition == Condition::Always {
                4
            } else {
                3
            },
            Instruction::JumpRelative(condition) => if condition == Condition::Always {
                3
            } else {
                2
            },
            _ => self.encoded_length(),
        }
    }

    /// What the instruction costs more when it is a conditional jump and
    /// the jump is taken.
    pub open spec fn branch_cycles(self) -> int {
        match self {
            Instruction::Jump(condition) | Instruction::JumpRelative(condition) => if condition
                == Condition::Always {
                0
            } else {
                1
            },
            _ => 0,
        }
    }

    /// The table entry that belongs to the instruction.
    pub open spec fn entry(self) -> Entry {
        Entry {
            instruction: self,
            length: self.encoded_length() as u16,
            cycles: self.base_cycles() as u8,
            branch_cycles: self.branch_cycles() as u8,
        }
    }
}

} // verus!
