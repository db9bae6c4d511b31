//! The execution engine: one CPU with its own register file and memory
//! bus, and the step that fetches, decodes and executes one instruction.

use vstd::prelude::*;
use crate::alu::{add_hl, apply, dec_16bit, dec_8bit, inc_16bit, inc_8bit};
use crate::bits::{
    ccf, cpl, reset_bit, rotate_left, rotate_left_circular, rotate_right, rotate_right_circular,
    scf, set_bit, shift, test_bit,
};
use crate::decoder::{
    decode_extended, decode_primary, standard_entry, DecodeError, DecodeTable, PREFIX,
};
use crate::flags::Flags;
use crate::instruction::{Entry, ExecutionResult, Instruction, Operand, Reg16};
use crate::memory::MemoryBus;
use crate::model::{address_after, signed_displacement, CpuState};
use crate::registers::{join_bytes, split_bytes, Registers};

verus! {

/// A CPU: the register file, the program counter, the stack pointer and
/// the memory bus, all owned by this one value.
pub struct CPU {
    pub registers: Registers,
    pub pc: u16,
    pub sp: u16,
    pub bus: MemoryBus,
}

impl View for CPU {
    type V = CpuState;

    open spec fn view(&self) -> CpuState {
        CpuState { registers: self.registers, pc: self.pc, sp: self.sp, memory: self.bus@ }
    }
}

impl CPU {
    /// A CPU with the given registers, program counter, stack pointer and
    /// memory.
    pub fn new(registers: Registers, pc: u16, sp: u16, bus: MemoryBus) -> (cpu: CPU)
        ensures
            cpu@ == (CpuState { registers, pc, sp, memory: bus@ }),
            cpu@.well_formed(),
    {
        proof {
            bus.lemma_size();
        }
        CPU { registers, pc, sp, bus }
    }

    /// The state of every CPU is well formed: its memory has one byte for
    /// each address.
    pub proof fn lemma_well_formed(&self)
        ensures
            self@.well_formed(),
    {
        self.bus.lemma_size();
    }

    /// Reads the 8-bit immediate: the byte after the opcode.
    fn get_d8(&self) -> (value: u8)
        ensures
            value == self@.immediate8(),
    {
        self.bus.read_byte(self.pc.wrapping_add(1))
    }

    /// Reads the 16-bit immediate: the two bytes after the opcode, low byte
    /// first.
    fn get_d16(&self) -> (value: u16)
        ensures
            value == self@.immediate16(),
    {
        let lsb = self.bus.read_byte(self.pc.wrapping_add(1));
        let msb = self.bus.read_byte(self.pc.wrapping_add(2));
        join_bytes(msb, lsb)
    }

    /// Reads a 16-bit register.
    fn read_wide(&self, name: Reg16) -> (value: u16)
        ensures
            value == self@.wide(name),
    {
        match name {
            Reg16::BC => self.registers.get_bc(),
            Reg16::DE => self.registers.get_de(),
            Reg16::HL => self.registers.get_hl(),
            Reg16::SP => self.sp,
        }
    }

    /// Writes a 16-bit register.
    fn write_wide(&mut self, name: Reg16, value: u16)
        ensures
            final(self)@ == old(self)@.with_wide(name, value),
    {
        match name {
            Reg16::BC => self.registers.set_bc(value),
            Reg16::DE => self.registers.set_de(value),
            Reg16::HL => self.registers.set_hl(value),
            Reg16::SP => {
                self.sp = value;
            },
        }
    }

    /// The address of the byte that a memory operand names.
    fn operand_address(&self, operand: Operand) -> (address: u16)
        ensures
            address == self@.operand_address(operand),
    {
        match operand {
            Operand::Register(_) => 0,
            Operand::Immediate8 => self.pc.wrapping_add(1),
            Operand::IndirectHL | Operand::IndirectHLInc | Operand::IndirectHLDec =>
                self.registers.get_hl(),
            Operand::IndirectBC => self.registers.get_bc(),
            Operand::IndirectDE => self.registers.get_de(),
            Operand::IoImmediate => 0xFF00 + self.get_d8() as u16,
            Operand::IoC => 0xFF00 + self.registers.c as u16,
            Operand::Absolute => self.get_d16(),
        }
    }

    /// Reads the byte that an operand names.
    fn read_operand(&self, operand: Operand) -> (value: u8)
        ensures
            value == self@.operand_value(operand),
    {
        match operand {
            Operand::Register(name) => self.registers.get(name),
            _ => self.bus.read_byte(self.operand_address(operand)),
        }
    }

    /// Writes the byte that an operand names.
    fn write_operand(&mut self, operand: Operand, value: u8)
        ensures
            final(self)@ == old(self)@.with_operand(operand, value),
    {
        match operand {
            Operand::Register(name) => self.registers.set(name, value),
            _ => {
                let address = self.operand_address(operand);
                self.bus.write_byte(address, value);
            },
        }
    }

    /// Moves HL on after an operand that increments or decrements it.
    fn finish_operand(&mut self, operand: Operand)
        ensures
            final(self)@ == old(self)@.after_operand(operand),
    {
        match operand {
            Operand::IndirectHLInc => {
                let hl = self.registers.get_hl();
                self.registers.set_hl(inc_16bit(hl));
            },
            Operand::IndirectHLDec => {
                let hl = self.registers.get_hl();
                self.registers.set_hl(dec_16bit(hl));
            },
            _ => {},
        }
    }

    /// Jumps to the 16-bit address after the opcode if `should_jump` holds.
    /// Returns whether it jumped.
    fn jump(&mut self, should_jump: bool) -> (taken: bool)
        ensures
            taken == should_jump,
            final(self)@ == if should_jump {
                old(self)@.with_pc(old(self)@.immediate16())
            } else {
                old(self)@
            },
    {
        if should_jump {
            self.pc = self.get_d16();
        }
        should_jump
    }

    /// Jumps by the signed displacement after the opcode, counted from the
    /// end of the instruction, if `should_jump` holds. Returns whether it
    /// jumped.
    fn jump_relative(&mut self, should_jump: bool, length: u16) -> (taken: bool)
        ensures
            taken == should_jump,
            final(self)@ == if should_jump {
                old(self)@.with_pc(
                    address_after(
                        old(self).pc,
                        length + signed_displacement(old(self)@.immediate8()),
                    ),
                )
            } else {
                old(self)@
            },
    {
        if should_jump {
            let displacement = self.get_d8();
            let next = self.pc.wrapping_add(length);
            if displacement < 0x80 {
                self.pc = next.wrapping_add(displacement as u16);
            } else {
                self.pc = next.wrapping_sub(0x100 - displacement as u16);
            }
        }
        should_jump
    }

    /// Executes the instruction of `entry`, the program counter pointing at
    /// the instruction. The program counter is left where it is unless a
    /// jump is taken: moving it on is the caller's part.
    pub fn execute_entry(&mut self, entry: Entry) -> (result: ExecutionResult)
        ensures
            final(self)@ == old(self)@.execute(entry),
            result == old(self)@.result(entry),
    {
        let flags = self.registers.f;
        let a = self.registers.a;
        let mut branch_taken = false;
        match entry.instruction {
            Instruction::Nop | Instruction::Extension => {},
            Instruction::Load { dst, src } => {
                let value = self.read_operand(src);
                self.write_operand(dst, value);
                self.finish_operand(src);
                self.finish_operand(dst);
            },
            Instruction::LoadImmediate16(name) => {
                let value = self.get_d16();
                self.write_wide(name, value);
            },
            Instruction::LoadSpHl => {
                self.sp = self.registers.get_hl();
            },
            Instruction::StoreSp => {
                let address = self.get_d16();
                let (high, low) = split_bytes(self.sp);
                self.bus.write_byte(address, low);
                self.bus.write_byte(address.wrapping_add(1), high);
            },
            Instruction::Alu(op, operand) => {
                let value = self.read_operand(operand);
                let (new_a, new_flags) = apply(op, a, value, flags);
                self.registers.a = new_a;
                self.registers.f = new_flags;
                self.finish_operand(operand);
            },
            Instruction::Inc(operand) => {
                let (value, new_flags) = inc_8bit(self.read_operand(operand), flags);
                self.store_result(operand, value, new_flags);
            },
            Instruction::Dec(operand) => {
                let (value, new_flags) = dec_8bit(self.read_operand(operand), flags);
                self.store_result(operand, value, new_flags);
            },
            Instruction::Inc16(name) => {
                let value = inc_16bit(self.read_wide(name));
                self.write_wide(name, value);
            },
            Instruction::Dec16(name) => {
                let value = dec_16bit(self.read_wide(name));
                self.write_wide(name, value);
            },
            Instruction::AddHl(name) => {
                let (value, new_flags) = add_hl(self.registers.get_hl(), self.read_wide(name), flags);
                self.registers.set_hl(value);
                self.registers.f = new_flags;
            },
            Instruction::Rlca => {
                let (value, new_flags) = rotate_left_circular(a, false);
                self.registers.a = value;
                self.registers.f = new_flags;
            },
            Instruction::Rrca => {
                let (value, new_flags) = rotate_right_circular(a, false);
                self.registers.a = value;
                self.registers.f = new_flags;
            },
            Instruction::Rla => {
                let (value, new_flags) = rotate_left(a, flags.carry, false);
                self.registers.a = value;
                self.registers.f = new_flags;
            },
            Instruction::Rra => {
                let (value, new_flags) = rotate_right(a, flags.carry, false);
                self.registers.a = value;
                self.registers.f = new_flags;
            },
            Instruction::Cpl => {
                let (value, new_flags) = cpl(a, flags);
                self.registers.a = value;
                self.registers.f = new_flags;
            },
            Instruction::Scf => {
                self.registers.f = scf(flags);
            },
            Instruction::Ccf => {
                self.registers.f = ccf(flags);
            },
            Instruction::Jump(condition) => {
                branch_taken = self.jump(condition.test(flags));
            },
            Instruction::JumpHl => {
                self.pc = self.registers.get_hl();
                branch_taken = true;
            },
            Instruction::JumpRelative(condition) => {
                branch_taken = self.jump_relative(condition.test(flags), entry.length);
            },
            Instruction::Shift(op, operand) => {
                let (value, new_flags) = shift(op, self.read_operand(operand), flags);
                self.store_result(operand, value, new_flags);
            },
            Instruction::TestBit(position, operand) => {
                self.registers.f = test_bit(self.read_operand(operand), position, flags);
                self.finish_operand(operand);
            },
            Instruction::ResetBit(position, operand) => {
                let value = reset_bit(self.read_operand(operand), position);
                self.write_operand(operand, value);
                self.finish_operand(operand);
            },
            Instruction::SetBit(position, operand) => {
                let value = set_bit(self.read_operand(operand), position);
                self.write_operand(operand, value);
                self.finish_operand(operand);
            },
        }
        let branch_cycles: u16 = if branch_taken {
            entry.branch_cycles as u16
        } else {
            0
        };
        ExecutionResult {
            bytes_consumed: entry.length,
            cycles_consumed: entry.cycles as u16 + branch_cycles,
            branch_taken,
        }
    }

    /// Writes a result back to its operand, sets the flags and finishes
    /// the operand.
    fn store_result(&mut self, operand: Operand, value: u8, flags: Flags)
        ensures
            final(self)@ == old(self)@.with_result(operand, value, flags),
    {
        self.write_operand(operand, value);
        self.registers.f = flags;
        self.finish_operand(operand);
    }

    /// Executes the instruction that `byte` stands for in the primary
    /// table.
    pub fn execute_not_prefixed(&mut self, byte: u8) -> (result: ExecutionResult)
        ensures
            final(self)@ == old(self)@.execute(standard_entry(byte, false)),
            result == old(self)@.result(standard_entry(byte, false)),
    {
        self.execute_entry(decode_primary(byte))
    }

    /// Executes the instruction that `byte` stands for in the extended
    /// table.
    pub fn execute_prefixed(&mut self, byte: u8) -> (result: ExecutionResult)
        ensures
            final(self)@ == old(self)@.execute(standard_entry(byte, true)),
            result == old(self)@.result(standard_entry(byte, true)),
    {
        self.execute_entry(decode_extended(byte))
    }

    /// Decodes `byte`, in the extended table if `prefixed` holds, and
    /// executes the instruction, the program counter pointing at it. The
    /// result says by how many bytes the program counter has to move on
    /// where no jump was taken.
    pub fn execute(&mut self, byte: u8, prefixed: bool) -> (result: ExecutionResult)
        ensures
            final(self)@ == old(self)@.execute(standard_entry(byte, prefixed)),
            result == old(self)@.result(standard_entry(byte, prefixed)),
    {
        if prefixed {
            return self.execute_prefixed(byte);
        }
        self.execute_not_prefixed(byte)
    }

    /// Fetches the opcode at the program counter: the byte there, or, behind
    /// the prefix, the byte after it.
    fn fetch(&self) -> (opcode: (u8, bool))
        ensures
            opcode == self@.opcode(),
    {
        let byte = self.bus.read_byte(self.pc);
        if byte == PREFIX {
            (self.bus.read_byte(self.pc.wrapping_add(1)), true)
        } else {
            (byte, false)
        }
    }

    /// Moves the program counter past the instruction unless the
    /// instruction was a taken jump.
    fn advance(&mut self, result: ExecutionResult)
        ensures
            final(self)@ == if result.branch_taken {
                old(self)@
            } else {
                old(self)@.with_pc(address_after(old(self).pc, result.bytes_consumed as int))
            },
    {
        if !result.branch_taken {
            self.pc = self.pc.wrapping_add(result.bytes_consumed);
        }
    }

    /// Executes exactly one instruction: fetches the opcode at the program
    /// counter, decodes it in the production table, executes it and moves
    /// the program counter on.
    pub fn step(&mut self) -> (result: ExecutionResult)
        ensures
            final(self)@ == old(self)@.step(),
            result == old(self)@.result(old(self)@.fetched()),
    {
        let (byte, prefixed) = self.fetch();
        let result = self.execute(byte, prefixed);
        self.advance(result);
        result
    }

    /// Executes one instruction as `step` does, but decodes it in `table`.
    /// Where `table` has no definition for the opcode, nothing is executed
    /// and the error names the opcode.
    pub fn step_with(&mut self, table: &DecodeTable) -> (result: Result<
        ExecutionResult,
        DecodeError,
    >)
        ensures
            (final(self)@, result) == old(self)@.step_on(
                table.resolve(old(self)@.opcode().0, old(self)@.opcode().1),
            ),
    {
        let (byte, prefixed) = self.fetch();
        match table.lookup(byte, prefixed) {
            Ok(entry) => {
                let result = self.execute_entry(entry);
                self.advance(result);
                Ok(result)
            },
            Err(error) => Err(error),
        }
    }
}

} // verus!
