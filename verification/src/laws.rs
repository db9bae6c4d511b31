//! Laws of the machine as a whole: what holds of every state and every
//! instruction, proved from the model.

use vstd::prelude::*;
use crate::alu::{lemma_and_self, lemma_compare_flags, AluOp};
use crate::bits::shift_result;
use crate::decoder::{lemma_opcode_fields, standard_entry, DecodeError, DecodeTable};
use crate::flags::Flags;
use crate::instruction::{Entry, ExecutionResult, Instruction, Operand};
use crate::model::{address_after, CpuState};
use crate::registers::Reg8;

verus! {

/// Whether an instruction has a contract on the flags. The others (loads,
/// 16-bit increments and decrements, jumps, bit sets and resets, and the
/// no-operations) do not mention them.
pub open spec fn mentions_flags(instruction: Instruction) -> bool {
    match instruction {
        Instruction::Alu(_, _)
        | Instruction::Inc(_)
        | Instruction::Dec(_)
        | Instruction::AddHl(_)
        | Instruction::Rlca
        | Instruction::Rrca
        | Instruction::Rla
        | Instruction::Rra
        | Instruction::Cpl
        | Instruction::Scf
        | Instruction::Ccf
        | Instruction::Shift(_, _)
        | Instruction::TestBit(_, _) => true,
        _ => false,
    }
}

/// An instruction that does not mention the flags leaves all four of them
/// as they were.
pub proof fn lemma_flags_untouched(state: CpuState, entry: Entry)
    requires
        !mentions_flags(entry.instruction),
    ensures
        state.run(entry).registers.f == state.registers.f,
{
}

/// The instructions that mention only some of the flags leave the others
/// as they were: an 8-bit increment or decrement and a bit test keep the
/// carry, and an addition to HL keeps Z.
pub proof fn lemma_flags_kept(state: CpuState, entry: Entry)
    ensures
        entry.instruction is Inc || entry.instruction is Dec || entry.instruction is TestBit
            ==> state.run(entry).registers.f.carry == state.registers.f.carry,
        entry.instruction is AddHl ==> state.run(entry).registers.f.zero
            == state.registers.f.zero,
{
}

/// The two policies on Z: the operations on the accumulator alone (its four
/// rotations, its complement, setting and complementing the carry) always
/// clear Z, whatever the result is; a rotation or shift from the extended
/// table sets Z just where its result is zero.
pub proof fn lemma_zero_policies(state: CpuState, entry: Entry)
    ensures
        entry.instruction is Rlca || entry.instruction is Rrca || entry.instruction is Rla
            || entry.instruction is Rra || entry.instruction is Cpl || entry.instruction is Scf
            || entry.instruction is Ccf ==> !state.run(entry).registers.f.zero,
        entry.instruction matches Instruction::Shift(op, operand) ==> (state.run(
            entry,
        ).registers.f.zero <==> shift_result(op, state.operand_value(operand), state.registers.f).0
            == 0),
{
}

/// An instruction that takes no jump leaves the program counter alone, so
/// that after it the program counter has moved on by the length that the
/// table gives, modulo 65536. A jump that is taken puts the program
/// counter on its target, and the length is not added to that.
pub proof fn lemma_program_counter(state: CpuState, entry: Entry)
    ensures
        !state.branch_taken(entry.instruction) ==> state.run(entry).pc == address_after(
            state.pc,
            entry.length as int,
        ),
        state.branch_taken(entry.instruction) ==> state.run(entry).pc == state.execute(entry).pc,
        state.run(entry).registers == state.execute(entry).registers,
        state.run(entry).sp == state.execute(entry).sp,
        state.run(entry).memory == state.execute(entry).memory,
{
}

/// Whatever is executed, the memory keeps one byte for each address.
pub proof fn lemma_memory_size_kept(state: CpuState, entry: Entry)
    requires
        state.well_formed(),
    ensures
        state.execute(entry).well_formed(),
        state.run(entry).well_formed(),
{
}

/// A comparison never changes the accumulator, whatever it is compared
/// with; Z says that the operand equals the accumulator and C that the
/// accumulator is the smaller one.
pub proof fn lemma_compare_keeps_accumulator(state: CpuState, entry: Entry, operand: Operand)
    requires
        entry.instruction == Instruction::Alu(AluOp::Cp, operand),
    ensures
        state.run(entry).registers.a == state.registers.a,
        state.run(entry).registers.f.zero <==> state.registers.a == state.operand_value(operand),
        state.run(entry).registers.f.carry <==> state.registers.a < state.operand_value(operand),
{
    lemma_compare_flags(state.registers.a, state.operand_value(operand), state.registers.f);
}

/// The opcode 0xA7 and-s the accumulator with itself: the accumulator
/// stays what it is, Z is set just where it is zero, H is set and C is
/// clear.
pub proof fn lemma_and_accumulator_with_itself(state: CpuState)
    ensures
        standard_entry(0xA7, false).instruction == Instruction::Alu(
            AluOp::And,
            Operand::Register(Reg8::A),
        ),
        state.run(standard_entry(0xA7, false)).registers.a == state.registers.a,
        state.run(standard_entry(0xA7, false)).registers.f == (Flags {
            zero: state.registers.a == 0,
            subtract: false,
            half_carry: true,
            carry: false,
        }),
{
    lemma_opcode_fields(0xA7);
    lemma_and_self(state.registers.a, state.registers.f);
}

/// The extended opcodes 0x40 to 0x7F test every bit of every register and
/// of the byte at HL. None of them changes the carry flag, and every one
/// sets H and clears N, whatever the tested bit is. Nothing but the flags
/// changes.
pub proof fn lemma_bit_test_keeps_carry(state: CpuState, byte: u8)
    requires
        0x40 <= byte <= 0x7F,
    ensures
        standard_entry(byte, true).instruction is TestBit,
        state.execute(standard_entry(byte, true)).registers.f.carry == state.registers.f.carry,
        state.execute(standard_entry(byte, true)).registers.f.half_carry,
        !state.execute(standard_entry(byte, true)).registers.f.subtract,
        state.execute(standard_entry(byte, true)) == state.with_flags(
            state.execute(standard_entry(byte, true)).registers.f,
        ),
{
    lemma_opcode_fields(byte);
}

/// In a table that holds the production entry for the opcode at the
/// program counter, a step is the step of the production decoder.
pub proof fn lemma_step_in_production_table(table: DecodeTable, state: CpuState)
    requires
        table.slot(state.opcode().0, state.opcode().1) == Some(state.fetched()),
    ensures
        state.step_on(table.resolve(state.opcode().0, state.opcode().1)) == (
            state.step(),
            Ok::<ExecutionResult, DecodeError>(state.result(state.fetched())),
        ),
{
}

/// No lookup in a complete table fails.
pub proof fn lemma_complete_table_resolves(table: DecodeTable, byte: u8, extended: bool)
    requires
        table.is_complete(),
    ensures
        table.resolve(byte, extended) is Ok,
{
}

} // verus!
