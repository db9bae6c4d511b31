//! The mathematical model of the machine: the state as plain values and a
//! sequence of bytes, and what one instruction makes of it.

use vstd::prelude::*;
use crate::alu::{add_hl_result, alu_result, dec_result, inc_result};
use crate::bits::{
    ccf_result, cpl_result, reset_bit_result, rotate_left_circular_result, rotate_left_result,
    rotate_right_circular_result, rotate_right_result, scf_result, set_bit_result, shift_result,
    test_bit_result,
};
use crate::decoder::{standard_entry, DecodeError, PREFIX};
use crate::flags::Flags;
use crate::instruction::{Entry, ExecutionResult, Instruction, Operand, Reg16};
use crate::registers::{high_byte, join, low_byte, Pair, Registers};

verus! {

/// The state of the machine: the register file, the program counter, the
/// stack pointer, and the memory as a sequence with one byte for each
/// address.
pub struct CpuState {
    pub registers: Registers,
    pub pc: u16,
    pub sp: u16,
    pub memory: Seq<u8>,
}

/// The address `offset` bytes after `address`, wrapping at 65536.
pub open spec fn address_after(address: u16, offset: int) -> u16 {
    ((address + offset) % 65536) as u16
}

/// A displacement byte read as a signed number in two's complement.
pub open spec fn signed_displacement(byte: u8) -> int {
    if byte < 128 {
        byte as int
    } else {
        byte - 256
    }
}

impl CpuState {
    /// The memory holds one byte for each 16-bit address.
    pub open spec fn well_formed(self) -> bool {
        self.memory.len() == 65536
    }

    /// The byte at `address`.
    pub open spec fn byte_at(self, address: u16) -> u8 {
        self.memory[address as int]
    }

    /// The state with the byte at `address` replaced by `value`.
    pub open spec fn with_byte(self, address: u16, value: u8) -> CpuState {
        CpuState { memory: self.memory.update(address as int, value), ..self }
    }

    /// The state with the flags replaced.
    pub open spec fn with_flags(self, flags: Flags) -> CpuState {
        CpuState { registers: Registers { f: flags, ..self.registers }, ..self }
    }

    /// The state with the accumulator replaced.
    pub open spec fn with_accumulator(self, value: u8) -> CpuState {
        CpuState { registers: Registers { a: value, ..self.registers }, ..self }
    }

    /// The state with the program counter replaced.
    pub open spec fn with_pc(self, pc: u16) -> CpuState {
        CpuState { pc, ..self }
    }

    /// The 8-bit immediate: the byte after the opcode.
    pub open spec fn immediate8(self) -> u8 {
        self.byte_at(address_after(self.pc, 1))
    }

    /// The 16-bit immediate: the two bytes after the opcode, low byte
    /// first.
    pub open spec fn immediate16(self) -> u16 {
        join(self.byte_at(address_after(self.pc, 2)), self.byte_at(address_after(self.pc, 1)))
    }

    /// The value of a 16-bit register.
    pub open spec fn wide(self, name: Reg16) -> u16 {
        match name {
            Reg16::BC => self.registers.pair(Pair::BC),
            Reg16::DE => self.registers.pair(Pair::DE),
            Reg16::HL => self.registers.pair(Pair::HL),
            Reg16::SP => self.sp,
        }
    }

    /// The state with a 16-bit register replaced.
    pub open spec fn with_wide(self, name: Reg16, value: u16) -> CpuState {
        match name {
            Reg16::BC => CpuState { registers: self.registers.with_pair(Pair::BC, value), ..self },
            Reg16::DE => CpuState { registers: self.registers.with_pair(Pair::DE, value), ..self },
            Reg16::HL => CpuState { registers: self.registers.with_pair(Pair::HL, value), ..self },
            Reg16::SP => CpuState { sp: value, ..self },
        }
    }

    /// The address of the byte that a memory operand names. (A register
    /// operand has no address; for it the result has no meaning.)
    pub open spec fn operand_address(self, operand: Operand) -> u16 {
        match operand {
            Operand::Register(_) => 0,
            Operand::Immediate8 => address_after(self.pc, 1),
            Operand::IndirectHL | Operand::IndirectHLInc | Operand::IndirectHLDec =>
                self.registers.pair(Pair::HL),
            Operand::IndirectBC => self.registers.pair(Pair::BC),
            Operand::IndirectDE => self.registers.pair(Pair::DE),
            Operand::IoImmediate => (0xFF00 + self.immediate8()) as u16,
            Operand::IoC => (0xFF00 + self.registers.c) as u16,
            Operand::Absolute => self.immediate16(),
        }
    }

    /// The byte that an operand names.
    pub open spec fn operand_value(self, operand: Operand) -> u8 {
        match operand {
            Operand::Register(name) => self.registers.value_of(name),
            _ => self.byte_at(self.operand_address(operand)),
        }
    }

    /// The state with the byte that an operand names replaced by `value`.
    pub open spec fn with_operand(self, operand: Operand, value: u8) -> CpuState {
        match operand {
            Operand::Register(name) => CpuState {
                registers: self.registers.with(name, value),
                ..self
            },
            _ => self.with_byte(self.operand_address(operand), value),
        }
    }

    /// The state after an operand was used: HL moves on by one for the
    /// modes that increment or decrement it, and nothing changes for the
    /// others.
    pub open spec fn after_operand(self, operand: Operand) -> CpuState {
        match operand {
            Operand::IndirectHLInc => self.with_wide(
                Reg16::HL,
                address_after(self.registers.pair(Pair::HL), 1),
            ),
            Operand::IndirectHLDec => self.with_wide(
                Reg16::HL,
                address_after(self.registers.pair(Pair::HL), -1),
            ),
            _ => self,
        }
    }

    /// Whether the instruction sets the program counter itself: a jump
    /// whose condition holds of the flags before the instruction.
    pub open spec fn branch_taken(self, instruction: Instruction) -> bool {
        match instruction {
            Instruction::Jump(condition) | Instruction::JumpRelative(condition) => condition.holds(
                self.registers.f,
            ),
            Instruction::JumpHl => true,
            _ => false,
        }
    }

    /// The state with the byte at `operand` replaced by `value` and the
    /// flags by `flags`, after the operand was used.
    pub open spec fn with_result(self, operand: Operand, value: u8, flags: Flags) -> CpuState {
        self.with_operand(operand, value).with_flags(flags).after_operand(operand)
    }

    /// What the instruction of `entry` makes of the state, the program
    /// counter pointing at the instruction. The program counter changes
    /// only where a jump is taken.
    pub open spec fn execute(self, entry: Entry) -> CpuState {
        let flags = self.registers.f;
        let a = self.registers.a;
        match entry.instruction {
            Instruction::Nop | Instruction::Extension => self,
            Instruction::Load { dst, src } => self.with_operand(
                dst,
                self.operand_value(src),
            ).after_operand(src).after_operand(dst),
            Instruction::LoadImmediate16(name) => self.with_wide(name, self.immediate16()),
            Instruction::LoadSpHl => self.with_wide(Reg16::SP, self.wide(Reg16::HL)),
            Instruction::StoreSp => self.with_byte(self.immediate16(), low_byte(self.sp)).with_byte(
                address_after(self.immediate16(), 1),
                high_byte(self.sp),
            ),
            Instruction::Alu(op, operand) => {
                let result = alu_result(op, a, self.operand_value(operand), flags);
                self.with_accumulator(result.0).with_flags(result.1).after_operand(operand)
            },
            Instruction::Inc(operand) => {
                let result = inc_result(self.operand_value(operand), flags);
                self.with_result(operand, result.0, result.1)
            },
            Instruction::Dec(operand) => {
                let result = dec_result(self.operand_value(operand), flags);
                self.with_result(operand, result.0, result.1)
            },
            Instruction::Inc16(name) => self.with_wide(name, address_after(self.wide(name), 1)),
            Instruction::Dec16(name) => self.with_wide(name, address_after(self.wide(name), -1)),
            Instruction::AddHl(name) => {
                let result = add_hl_result(self.wide(Reg16::HL), self.wide(name), flags);
                self.with_wide(Reg16::HL, result.0).with_flags(result.1)
            },
            Instruction::Rlca => {
                let result = rotate_left_circular_result(a, false);
                self.with_accumulator(result.0).with_flags(result.1)
            },
            Instruction::Rrca => {
                let result = rotate_right_circular_result(a, false);
                self.with_accumulator(result.0).with_flags(result.1)
            },
            Instruction::Rla => {
                let result = rotate_left_result(a, flags.carry, false);
                self.with_accumulator(result.0).with_flags(result.1)
            },
            Instruction::Rra => {
                let result = rotate_right_result(a, flags.carry, false);
                self.with_accumulator(result.0).with_flags(result.1)
            },
            Instruction::Cpl => {
                let result = cpl_result(a, flags);
                self.with_accumulator(result.0).with_flags(result.1)
            },
            Instruction::Scf => self.with_flags(scf_result(flags)),
            Instruction::Ccf => self.with_flags(ccf_result(flags)),
            Instruction::Jump(condition) => if condition.holds(flags) {
                self.with_pc(self.immediate16())
            } else {
                self
            },
            Instruction::JumpHl => self.with_pc(self.wide(Reg16::HL)),
            Instruction::JumpRelative(condition) => if condition.holds(flags) {
                self.with_pc(
                    address_after(self.pc, entry.length + signed_displacement(self.immediate8())),
                )
            } else {
                self
            },
            Instruction::Shift(op, operand) => {
                let result = shift_result(op, self.operand_value(operand), flags);
                self.with_result(operand, result.0, result.1)
            },
            Instruction::TestBit(position, operand) => self.with_flags(
                test_bit_result(self.operand_value(operand), position, flags),
            ).after_operand(operand),
            Instruction::ResetBit(position, operand) => self.with_operand(
                operand,
                reset_bit_result(self.operand_value(operand), position),
            ).after_operand(operand),
            Instruction::SetBit(position, operand) => self.with_operand(
                operand,
                set_bit_result(self.operand_value(operand), position),
            ).after_operand(operand),
        }
    }

    /// What executing `entry` reports: its length, its cost, with the
    /// further cost of a taken jump, and whether a jump was taken.
    pub open spec fn result(self, entry: Entry) -> ExecutionResult {
        let taken = self.branch_taken(entry.instruction);
        ExecutionResult {
            bytes_consumed: entry.length,
            cycles_consumed: (entry.cycles + if taken {
                entry.branch_cycles as int
            } else {
                0
            }) as u16,
            branch_taken: taken,
        }
    }

    /// The state after the instruction of `entry` and the update of the
    /// program counter: where no jump was taken, it moves on by the length
    /// of the instruction; where one was, it stays where the jump put it.
    pub open spec fn run(self, entry: Entry) -> CpuState {
        let after = self.execute(entry);
        if self.branch_taken(entry.instruction) {
            after
        } else {
            after.with_pc(address_after(after.pc, entry.length as int))
        }
    }

    /// The opcode at the program counter: the byte there, or, where that
    /// byte is the prefix, the byte after it, to be looked up in the
    /// extended table.
    pub open spec fn opcode(self) -> (u8, bool) {
        if self.byte_at(self.pc) == PREFIX {
            (self.byte_at(address_after(self.pc, 1)), true)
        } else {
            (self.byte_at(self.pc), false)
        }
    }

    /// The entry of the production table for the opcode at the program
    /// counter.
    pub open spec fn fetched(self) -> Entry {
        standard_entry(self.opcode().0, self.opcode().1)
    }

    /// The state after one step: the instruction at the program counter is
    /// fetched, decoded and run.
    pub open spec fn step(self) -> CpuState {
        self.run(self.fetched())
    }

    /// What a step makes of the outcome of a lookup: an entry is run and
    /// its result reported; an error is handed on and the state stays as it
    /// is.
    pub open spec fn step_on(self, lookup: Result<Entry, DecodeError>) -> (
        CpuState,
        Result<ExecutionResult, DecodeError>,
    ) {
        match lookup {
            Ok(entry) => (self.run(entry), Ok(self.result(entry))),
            Err(error) => (self, Err(error)),
        }
    }
}

} // verus!
