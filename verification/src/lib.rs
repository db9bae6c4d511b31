//! Execution core of an 8-bit CPU: register file and flags, a flat 64 KiB
//! memory bus, the arithmetic-logic and bit/shift/rotate units, a two-level
//! opcode decoder and the fetch-decode-execute engine.
//!
//! Every operation is stated over a mathematical model (integers, plain
//! flag records, a sequence of bytes for the memory) and proved against it:
//!
//! - `flags`, `registers`, `memory`: the state that a program can see;
//! - `alu`, `bits`: the operations on bytes and their flags;
//! - `instruction`, `decoder`: decoded instructions and the two tables,
//!   total over all 512 opcodes;
//! - `model`: the state as a mathematical value and what one instruction
//!   makes of it;
//! - `cpu`: the engine, whose `step` executes one instruction;
//! - `laws`: what holds of every state and every instruction.
//!
//! The core leaves the stack, calls and returns, interrupts and the power
//! states to an extension: their opcodes decode to
//! `instruction::Instruction::Extension` and are stepped over.

pub mod flags;
pub mod registers;
pub mod memory;
pub mod alu;
pub mod bits;
pub mod instruction;
pub mod decoder;
pub mod model;
pub mod cpu;
pub mod laws;
