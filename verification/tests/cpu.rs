//! The execution engine, one step at a time.

use cpu_core::bits::BitPosition;
use cpu_core::cpu::CPU;
use cpu_core::decoder::{decode, decode_primary, DecodeError, DecodeTable};
use cpu_core::flags::Flags;
use cpu_core::instruction::{Entry, ExecutionResult, Instruction, Operand};
use cpu_core::memory::MemoryBus;
use cpu_core::registers::{Reg8, Registers};

fn flags(zero: bool, subtract: bool, half_carry: bool, carry: bool) -> Flags {
    Flags { zero, subtract, half_carry, carry }
}

fn result(bytes_consumed: u16, cycles_consumed: u16, branch_taken: bool) -> ExecutionResult {
    ExecutionResult { bytes_consumed, cycles_consumed, branch_taken }
}

/// A CPU with zeroed registers, the program counter at `pc` and `program`
/// in memory from `pc` on.
fn cpu_at(pc: u16, program: &[u8]) -> CPU {
    let mut bus = MemoryBus::new();
    let mut address = pc;
    for byte in program {
        bus.write_byte(address, *byte);
        address = address.wrapping_add(1);
    }
    CPU::new(Registers::new(), pc, 0xFFFE, bus)
}

#[test]
fn load_immediate_into_a() {
    let mut cpu = cpu_at(0x0100, &[0x3E, 0x05]);
    let seeded = flags(true, false, true, false);
    cpu.registers.f = seeded;
    let outcome = cpu.step();
    assert_eq!(cpu.registers.a, 0x05);
    assert_eq!(cpu.pc, 0x0102);
    assert_eq!(outcome.cycles_consumed, 2);
    assert_eq!(outcome, result(2, 2, false));
    assert_eq!(cpu.registers.f, seeded);
    assert_eq!(cpu.sp, 0xFFFE);
}

#[test]
fn add_immediate_sets_half_carry() {
    let mut cpu = cpu_at(0x0000, &[0xC6, 0x01]);
    cpu.registers.a = 0x0F;
    let outcome = cpu.step();
    assert_eq!(cpu.registers.a, 0x10);
    assert_eq!(cpu.registers.f, flags(false, false, true, false));
    assert_eq!(outcome, result(2, 2, false));
    assert_eq!(cpu.pc, 0x0002);
}

#[test]
fn relative_jump_back_to_itself() {
    let mut cpu = cpu_at(0x0200, &[0x18, 0xFE]);
    let outcome = cpu.step();
    assert_eq!(cpu.pc, 0x0200);
    assert_eq!(outcome, result(2, 3, true));

    let mut cpu = cpu_at(0x0200, &[0x20, 0xFE]);
    cpu.registers.f = flags(false, false, false, false);
    let outcome = cpu.step();
    assert_eq!(cpu.pc, 0x0200);
    assert_eq!(outcome, result(2, 3, true));
}

#[test]
fn relative_jump_forward_and_not_taken() {
    let mut cpu = cpu_at(0x0200, &[0x28, 0x10]);
    cpu.registers.f = flags(true, false, false, false);
    assert_eq!(cpu.step(), result(2, 3, true));
    assert_eq!(cpu.pc, 0x0212);

    let mut cpu = cpu_at(0x0200, &[0x28, 0x10]);
    cpu.registers.f = flags(false, false, false, false);
    assert_eq!(cpu.step(), result(2, 2, false));
    assert_eq!(cpu.pc, 0x0202);

    let mut cpu = cpu_at(0x0200, &[0x38, 0x7F]);
    cpu.registers.f = flags(false, false, false, true);
    assert_eq!(cpu.step(), result(2, 3, true));
    assert_eq!(cpu.pc, 0x0281);

    let mut cpu = cpu_at(0x0200, &[0x30, 0x80]);
    cpu.registers.f = flags(false, false, false, false);
    assert_eq!(cpu.step(), result(2, 3, true));
    assert_eq!(cpu.pc, 0x0182);
}

#[test]
fn relative_jump_wraps_round_the_address_space() {
    let mut cpu = cpu_at(0x0000, &[0x18, 0x80]);
    cpu.step();
    assert_eq!(cpu.pc, 0xFF82);
    let mut cpu = cpu_at(0xFFF0, &[0x18, 0x7F]);
    cpu.step();
    assert_eq!(cpu.pc, 0x0071);
}

#[test]
fn absolute_jumps_read_the_flags_before() {
    let mut cpu = cpu_at(0x0100, &[0xC3, 0x34, 0x12]);
    assert_eq!(cpu.step(), result(3, 4, true));
    assert_eq!(cpu.pc, 0x1234);

    let cases = [
        (0xC2u8, flags(false, false, false, false), true),
        (0xC2, flags(true, false, false, false), false),
        (0xCA, flags(true, false, false, false), true),
        (0xCA, flags(false, false, false, false), false),
        (0xD2, flags(false, false, false, false), true),
        (0xD2, flags(false, false, false, true), false),
        (0xDA, flags(false, false, false, true), true),
        (0xDA, flags(false, false, false, false), false),
    ];
    for (opcode, before, taken) in cases {
        let mut cpu = cpu_at(0x0100, &[opcode, 0xCD, 0xAB]);
        cpu.registers.f = before;
        let outcome = cpu.step();
        if taken {
            assert_eq!(outcome, result(3, 4, true));
            assert_eq!(cpu.pc, 0xABCD);
        } else {
            assert_eq!(outcome, result(3, 3, false));
            assert_eq!(cpu.pc, 0x0103);
        }
        assert_eq!(cpu.registers.f, before);
    }
}

#[test]
fn jump_to_hl() {
    let mut cpu = cpu_at(0x0100, &[0xE9]);
    cpu.registers.set_hl(0x4321);
    assert_eq!(cpu.step(), result(1, 1, true));
    assert_eq!(cpu.pc, 0x4321);
}

#[test]
fn the_program_counter_wraps() {
    let mut cpu = cpu_at(0xFFFF, &[0x00]);
    assert_eq!(cpu.step(), result(1, 1, false));
    assert_eq!(cpu.pc, 0x0000);

    let mut cpu = cpu_at(0xFFFF, &[0x3E, 0x77]);
    assert_eq!(cpu.bus.read_byte(0x0000), 0x77);
    cpu.step();
    assert_eq!(cpu.registers.a, 0x77);
    assert_eq!(cpu.pc, 0x0001);

    let mut cpu = cpu_at(0xFFFE, &[0x01, 0x34, 0x12]);
    cpu.step();
    assert_eq!(cpu.registers.get_bc(), 0x1234);
    assert_eq!(cpu.pc, 0x0001);
}

#[test]
fn prefixed_instructions_take_two_bytes() {
    let mut cpu = cpu_at(0x0100, &[0xCB, 0x37]);
    cpu.registers.a = 0xA5;
    cpu.registers.f = flags(true, true, true, true);
    assert_eq!(cpu.step(), result(2, 2, false));
    assert_eq!(cpu.registers.a, 0x5A);
    assert_eq!(cpu.registers.f, flags(false, false, false, false));
    assert_eq!(cpu.pc, 0x0102);

    let mut cpu = cpu_at(0xFFFF, &[0xCB, 0xC0]);
    assert_eq!(cpu.step(), result(2, 2, false));
    assert_eq!(cpu.registers.b, 0x01);
    assert_eq!(cpu.pc, 0x0001);
}

#[test]
fn the_two_zero_policies() {
    let mut cpu = cpu_at(0x0100, &[0x07]);
    cpu.registers.a = 0x00;
    cpu.registers.f = flags(true, true, true, true);
    cpu.step();
    assert_eq!(cpu.registers.a, 0x00);
    assert_eq!(cpu.registers.f, flags(false, false, false, false));

    let mut cpu = cpu_at(0x0100, &[0xCB, 0x07]);
    cpu.registers.a = 0x00;
    cpu.step();
    assert_eq!(cpu.registers.a, 0x00);
    assert_eq!(cpu.registers.f, flags(true, false, false, false));

    for (opcode, value, carry, expected, expected_carry) in [
        (0x07u8, 0x80u8, false, 0x01u8, true),
        (0x0F, 0x01, false, 0x80, true),
        (0x17, 0x80, false, 0x00, true),
        (0x17, 0x00, true, 0x01, false),
        (0x1F, 0x01, false, 0x00, true),
        (0x1F, 0x00, true, 0x80, false),
    ] {
        let mut cpu = cpu_at(0x0100, &[opcode]);
        cpu.registers.a = value;
        cpu.registers.f = flags(true, true, true, carry);
        assert_eq!(cpu.step(), result(1, 1, false));
        assert_eq!(cpu.registers.a, expected);
        assert_eq!(cpu.registers.f, flags(false, false, false, expected_carry));
    }
}

#[test]
fn complement_and_carry_instructions() {
    let mut cpu = cpu_at(0x0100, &[0x2F, 0x37, 0x3F, 0x3F]);
    cpu.registers.a = 0x35;
    cpu.registers.f = flags(true, true, true, false);
    cpu.step();
    assert_eq!(cpu.registers.a, 0xCA);
    assert_eq!(cpu.registers.f, flags(false, true, true, false));
    cpu.step();
    assert_eq!(cpu.registers.f, flags(false, false, false, true));
    cpu.registers.f = flags(true, true, true, true);
    cpu.step();
    assert_eq!(cpu.registers.f, flags(false, true, true, false));
    cpu.step();
    assert_eq!(cpu.registers.f, flags(false, true, true, true));
    assert_eq!(cpu.pc, 0x0104);
}

#[test]
fn bit_test_on_every_register_and_bit_keeps_the_carry() {
    for opcode in 0x40..=0x7Fu8 {
        for value in [0x00u8, 0xFF, 0x55, 0xAA] {
            let mut cpu = cpu_at(0x0100, &[0xCB, opcode]);
            cpu.registers = Registers {
                a: value,
                b: value,
                c: value,
                d: value,
                e: value,
                h: 0x80,
                l: 0x00,
                f: flags(false, true, false, true),
            };
            cpu.bus.write_byte(0x8000, value);
            let position = BitPosition::from_index((opcode >> 3) & 7).unwrap();
            let column = opcode & 7;
            let tested = match column {
                4 => 0x80,
                5 => 0x00,
                _ => value,
            };
            let outcome = cpu.step();
            assert!(cpu.registers.f.carry);
            assert!(cpu.registers.f.half_carry);
            assert!(!cpu.registers.f.subtract);
            assert_eq!(cpu.registers.f.zero, tested & position.mask() == 0);
            assert_eq!(outcome, result(2, if column == 6 { 3 } else { 2 }, false));
            assert_eq!(cpu.registers.a, value);
            assert_eq!(cpu.bus.read_byte(0x8000), value);
        }
    }
}

#[test]
fn and_a_keeps_every_accumulator() {
    for a in 0..=255u8 {
        let mut cpu = cpu_at(0x0100, &[0xA7]);
        cpu.registers.a = a;
        cpu.registers.b = !a;
        cpu.registers.f = flags(false, true, false, true);
        assert_eq!(cpu.step(), result(1, 1, false));
        assert_eq!(cpu.registers.a, a);
        assert_eq!(cpu.registers.f, flags(a == 0, false, true, false));
    }
}

#[test]
fn compare_never_changes_the_accumulator() {
    for opcode in [0xB8u8, 0xB9, 0xBA, 0xBB, 0xBC, 0xBD, 0xBE, 0xBF, 0xFE] {
        let mut cpu = cpu_at(0x0100, &[opcode, 0x50]);
        cpu.registers =
            Registers { a: 0x40, b: 0x40, c: 0x41, d: 0x3F, e: 0x00, h: 0x90, l: 0x00, f: Flags::new() };
        cpu.bus.write_byte(0x9000, 0x40);
        cpu.step();
        assert_eq!(cpu.registers.a, 0x40);
        let operand = match opcode {
            0xB8 => 0x40,
            0xB9 => 0x41,
            0xBA => 0x3F,
            0xBB => 0x00,
            0xBC => 0x90,
            0xBD => 0x00,
            0xBE => 0x40,
            0xBF => 0x40,
            _ => 0x50,
        };
        assert_eq!(cpu.registers.f.zero, 0x40 == operand);
        assert_eq!(cpu.registers.f.carry, 0x40 < operand);
        assert!(cpu.registers.f.subtract);
    }
}

#[test]
fn arithmetic_on_registers_and_memory() {
    let mut cpu = cpu_at(0x0100, &[0x80, 0x8E, 0x96, 0x9F]);
    cpu.registers.a = 0xF0;
    cpu.registers.b = 0x20;
    cpu.registers.set_hl(0xC000);
    cpu.bus.write_byte(0xC000, 0x0F);
    assert_eq!(cpu.step(), result(1, 1, false));
    assert_eq!(cpu.registers.a, 0x10);
    assert_eq!(cpu.registers.f, flags(false, false, false, true));
    assert_eq!(cpu.step(), result(1, 2, false));
    assert_eq!(cpu.registers.a, 0x20);
    assert_eq!(cpu.registers.f, flags(false, false, true, false));
    assert_eq!(cpu.step(), result(1, 2, false));
    assert_eq!(cpu.registers.a, 0x11);
    assert_eq!(cpu.registers.f, flags(false, true, true, false));
    cpu.registers.f.carry = true;
    assert_eq!(cpu.step(), result(1, 1, false));
    assert_eq!(cpu.registers.a, 0xFF);
    assert_eq!(cpu.registers.f, flags(false, true, true, true));
    assert_eq!(cpu.pc, 0x0104);
}

#[test]
fn increments_keep_the_carry() {
    let mut cpu = cpu_at(0x0100, &[0x3C, 0x05, 0x34, 0x35]);
    cpu.registers.a = 0xFF;
    cpu.registers.b = 0x10;
    cpu.registers.set_hl(0xC000);
    cpu.bus.write_byte(0xC000, 0x0F);
    cpu.registers.f = flags(false, true, false, true);
    assert_eq!(cpu.step(), result(1, 1, false));
    assert_eq!(cpu.registers.a, 0x00);
    assert_eq!(cpu.registers.f, flags(true, false, true, true));
    assert_eq!(cpu.step(), result(1, 1, false));
    assert_eq!(cpu.registers.b, 0x0F);
    assert_eq!(cpu.registers.f, flags(false, true, true, true));
    assert_eq!(cpu.step(), result(1, 3, false));
    assert_eq!(cpu.bus.read_byte(0xC000), 0x10);
    assert_eq!(cpu.registers.f, flags(false, false, true, true));
    assert_eq!(cpu.step(), result(1, 3, false));
    assert_eq!(cpu.bus.read_byte(0xC000), 0x0F);
    assert_eq!(cpu.registers.f, flags(false, true, true, true));
}

#[test]
fn sixteen_bit_increments_touch_no_flag() {
    let mut cpu = cpu_at(0x0100, &[0x03, 0x1B, 0x23, 0x33, 0x3B]);
    cpu.registers.set_bc(0xFFFF);
    cpu.registers.set_de(0x0000);
    cpu.registers.set_hl(0x00FF);
    cpu.sp = 0xFFFF;
    let seeded = flags(true, true, true, true);
    cpu.registers.f = seeded;
    cpu.registers.a = 0x77;
    assert_eq!(cpu.step(), result(1, 2, false));
    assert_eq!(cpu.registers.get_bc(), 0x0000);
    assert_eq!(cpu.step(), result(1, 2, false));
    assert_eq!(cpu.registers.get_de(), 0xFFFF);
    cpu.step();
    assert_eq!(cpu.registers.get_hl(), 0x0100);
    cpu.step();
    assert_eq!(cpu.sp, 0x0000);
    cpu.step();
    assert_eq!(cpu.sp, 0xFFFF);
    assert_eq!(cpu.registers.f, seeded);
    assert_eq!(cpu.registers.a, 0x77);
    assert_eq!(cpu.registers.get_af(), 0x77F0);
}

#[test]
fn add_to_hl_keeps_the_zero_flag() {
    for zero in [false, true] {
        let mut cpu = cpu_at(0x0100, &[0x09, 0x29, 0x39]);
        cpu.registers.set_hl(0x0FFF);
        cpu.registers.set_bc(0x0001);
        cpu.sp = 0xE000;
        cpu.registers.f = flags(zero, true, false, true);
        assert_eq!(cpu.step(), result(1, 2, false));
        assert_eq!(cpu.registers.get_hl(), 0x1000);
        assert_eq!(cpu.registers.f, flags(zero, false, true, false));
        cpu.step();
        assert_eq!(cpu.registers.get_hl(), 0x2000);
        assert_eq!(cpu.registers.f, flags(zero, false, false, false));
        cpu.step();
        assert_eq!(cpu.registers.get_hl(), 0x0000);
        assert_eq!(cpu.registers.f, flags(zero, false, false, true));
        assert_eq!(cpu.registers.get_bc(), 0x0001);
    }
}

#[test]
fn loads_through_register_pairs() {
    let mut cpu = cpu_at(0x0100, &[0x02, 0x1A, 0x22, 0x3A, 0x2A, 0x32]);
    cpu.registers.a = 0x5A;
    cpu.registers.set_bc(0xC000);
    cpu.registers.set_de(0xC100);
    cpu.registers.set_hl(0xFFFF);
    cpu.bus.write_byte(0xC100, 0x99);
    let seeded = flags(true, false, true, false);
    cpu.registers.f = seeded;
    assert_eq!(cpu.step(), result(1, 2, false));
    assert_eq!(cpu.bus.read_byte(0xC000), 0x5A);
    assert_eq!(cpu.step(), result(1, 2, false));
    assert_eq!(cpu.registers.a, 0x99);
    assert_eq!(cpu.step(), result(1, 2, false));
    assert_eq!(cpu.bus.read_byte(0xFFFF), 0x99);
    assert_eq!(cpu.registers.get_hl(), 0x0000);
    cpu.bus.write_byte(0x0000, 0x11);
    assert_eq!(cpu.step(), result(1, 2, false));
    assert_eq!(cpu.registers.a, 0x11);
    assert_eq!(cpu.registers.get_hl(), 0xFFFF);
    cpu.step();
    assert_eq!(cpu.registers.a, 0x99);
    assert_eq!(cpu.registers.get_hl(), 0x0000);
    cpu.step();
    assert_eq!(cpu.bus.read_byte(0x0000), 0x99);
    assert_eq!(cpu.registers.get_hl(), 0xFFFF);
    assert_eq!(cpu.registers.f, seeded);
    assert_eq!(cpu.pc, 0x0106);
}

#[test]
fn loads_between_registers_and_memory() {
    let mut cpu = cpu_at(0x0100, &[0x41, 0x70, 0x5E, 0x36, 0xAB, 0x7E]);
    cpu.registers.c = 0x12;
    cpu.registers.set_hl(0xC000);
    assert_eq!(cpu.step(), result(1, 1, false));
    assert_eq!(cpu.registers.b, 0x12);
    assert_eq!(cpu.step(), result(1, 2, false));
    assert_eq!(cpu.bus.read_byte(0xC000), 0x12);
    assert_eq!(cpu.step(), result(1, 2, false));
    assert_eq!(cpu.registers.e, 0x12);
    assert_eq!(cpu.step(), result(2, 3, false));
    assert_eq!(cpu.bus.read_byte(0xC000), 0xAB);
    assert_eq!(cpu.step(), result(1, 2, false));
    assert_eq!(cpu.registers.a, 0xAB);
    assert_eq!(cpu.pc, 0x0106);
}

#[test]
fn loads_through_ports_and_absolute_addresses() {
    let mut cpu = cpu_at(0x0100, &[0xE0, 0x80, 0xF0, 0x81, 0xE2, 0xF2, 0xEA, 0x00, 0xC0, 0xFA, 0x01, 0xC0]);
    cpu.registers.a = 0x42;
    cpu.registers.c = 0x10;
    cpu.bus.write_byte(0xFF81, 0x24);
    cpu.bus.write_byte(0xC001, 0x66);
    assert_eq!(cpu.step(), result(2, 3, false));
    assert_eq!(cpu.bus.read_byte(0xFF80), 0x42);
    assert_eq!(cpu.step(), result(2, 3, false));
    assert_eq!(cpu.registers.a, 0x24);
    assert_eq!(cpu.step(), result(1, 2, false));
    assert_eq!(cpu.bus.read_byte(0xFF10), 0x24);
    cpu.bus.write_byte(0xFF10, 0x25);
    assert_eq!(cpu.step(), result(1, 2, false));
    assert_eq!(cpu.registers.a, 0x25);
    assert_eq!(cpu.step(), result(3, 4, false));
    assert_eq!(cpu.bus.read_byte(0xC000), 0x25);
    assert_eq!(cpu.step(), result(3, 4, false));
    assert_eq!(cpu.registers.a, 0x66);
    assert_eq!(cpu.pc, 0x010C);
}

#[test]
fn sixteen_bit_loads() {
    let mut cpu = cpu_at(0x0100, &[0x31, 0xCD, 0xAB, 0x08, 0xFF, 0xC0, 0x21, 0x34, 0x12, 0xF9, 0x11, 0x78, 0x56]);
    assert_eq!(cpu.step(), result(3, 3, false));
    assert_eq!(cpu.sp, 0xABCD);
    assert_eq!(cpu.step(), result(3, 5, false));
    assert_eq!(cpu.bus.read_byte(0xC0FF), 0xCD);
    assert_eq!(cpu.bus.read_byte(0xC100), 0xAB);
    cpu.step();
    assert_eq!(cpu.registers.get_hl(), 0x1234);
    assert_eq!(cpu.step(), result(1, 2, false));
    assert_eq!(cpu.sp, 0x1234);
    cpu.step();
    assert_eq!(cpu.registers.get_de(), 0x5678);
    assert_eq!(cpu.pc, 0x010D);
}

#[test]
fn store_sp_wraps_at_the_top_of_memory() {
    let mut cpu = cpu_at(0x0100, &[0x08, 0xFF, 0xFF]);
    cpu.sp = 0x1234;
    cpu.step();
    assert_eq!(cpu.bus.read_byte(0xFFFF), 0x34);
    assert_eq!(cpu.bus.read_byte(0x0000), 0x12);
}

#[test]
fn set_and_reset_in_memory_touch_no_flag() {
    let mut cpu = cpu_at(0x0100, &[0xCB, 0xFE, 0xCB, 0x86, 0xCB, 0x26]);
    cpu.registers.set_hl(0xC000);
    cpu.bus.write_byte(0xC000, 0x01);
    let seeded = flags(true, true, true, true);
    cpu.registers.f = seeded;
    assert_eq!(cpu.step(), result(2, 4, false));
    assert_eq!(cpu.bus.read_byte(0xC000), 0x81);
    assert_eq!(cpu.registers.f, seeded);
    assert_eq!(cpu.step(), result(2, 4, false));
    assert_eq!(cpu.bus.read_byte(0xC000), 0x80);
    assert_eq!(cpu.registers.f, seeded);
    assert_eq!(cpu.step(), result(2, 4, false));
    assert_eq!(cpu.bus.read_byte(0xC000), 0x00);
    assert_eq!(cpu.registers.f, flags(true, false, false, true));
}

#[test]
fn extensions_are_stepped_over() {
    for opcode in [0xCDu8, 0xC9, 0xC5, 0xF1, 0x76, 0x10, 0xF3, 0xFB, 0x27, 0xE8, 0xD3] {
        let mut cpu = cpu_at(0x0100, &[opcode, 0x12, 0x34]);
        cpu.registers =
            Registers { a: 1, b: 2, c: 3, d: 4, e: 5, h: 6, l: 7, f: flags(true, false, true, false) };
        let before = cpu.registers;
        assert_eq!(cpu.step(), result(1, 1, false));
        assert_eq!(cpu.pc, 0x0101);
        assert_eq!(cpu.sp, 0xFFFE);
        assert_eq!(cpu.registers, before);
        assert_eq!(cpu.bus.read_byte(0x0101), 0x12);
    }
}

#[test]
fn execute_leaves_the_program_counter_to_the_caller() {
    let mut cpu = cpu_at(0x0100, &[0x3E, 0x05]);
    assert_eq!(cpu.execute(0x3E, false), result(2, 2, false));
    assert_eq!(cpu.registers.a, 0x05);
    assert_eq!(cpu.pc, 0x0100);
    assert_eq!(cpu.execute_not_prefixed(0x3C), result(1, 1, false));
    assert_eq!(cpu.registers.a, 0x06);
    assert_eq!(cpu.execute_prefixed(0x37), result(2, 2, false));
    assert_eq!(cpu.registers.a, 0x60);
    assert_eq!(cpu.execute(0x37, true), result(2, 2, false));
    assert_eq!(cpu.registers.a, 0x06);
    assert_eq!(cpu.execute(0x37, false), result(1, 1, false));
    assert!(cpu.registers.f.carry);
    assert_eq!(cpu.pc, 0x0100);
    assert_eq!(cpu.execute(0xC3, false), result(3, 4, true));
    assert_eq!(cpu.pc, 0x0005);
}

#[test]
fn execute_entry_uses_the_numbers_of_the_entry() {
    let mut cpu = cpu_at(0x0100, &[0x00, 0x07]);
    let custom = Entry {
        instruction: Instruction::Load { dst: Operand::Register(Reg8::D), src: Operand::Immediate8 },
        length: 2,
        cycles: 9,
        branch_cycles: 4,
    };
    assert_eq!(cpu.execute_entry(custom), result(2, 9, false));
    assert_eq!(cpu.registers.d, 0x07);
    assert_eq!(cpu.pc, 0x0100);
    let jump = Entry { cycles: 200, branch_cycles: 100, ..decode_primary(0x20) };
    assert_eq!(cpu.execute_entry(jump), result(2, 300, true));
    assert_eq!(cpu.pc, 0x0109);
}

#[test]
fn a_gap_in_the_table_is_reported_and_changes_nothing() {
    let mut table = DecodeTable::empty();
    assert!(table.define(0x3E, false, decode(0x3E, false)));
    assert!(table.define(0x37, true, decode(0x37, true)));
    let mut cpu = cpu_at(0x0100, &[0x3E, 0xA5, 0xCB, 0x37, 0x00, 0xCB, 0x00]);
    assert_eq!(cpu.step_with(&table), Ok(result(2, 2, false)));
    assert_eq!(cpu.registers.a, 0xA5);
    assert_eq!(cpu.step_with(&table), Ok(result(2, 2, false)));
    assert_eq!(cpu.registers.a, 0x5A);
    assert_eq!(cpu.pc, 0x0104);
    let before = cpu.registers;
    assert_eq!(cpu.step_with(&table), Err(DecodeError::UnimplementedOpcode(0x00, false)));
    assert_eq!(cpu.pc, 0x0104);
    assert_eq!(cpu.registers, before);
    cpu.pc = 0x0105;
    assert_eq!(cpu.step_with(&table), Err(DecodeError::UnimplementedOpcode(0x00, true)));
    assert_eq!(cpu.pc, 0x0105);
    assert_eq!(cpu.registers, before);
}

#[test]
fn the_production_table_steps_like_the_decoder() {
    let program = [0x3E, 0x0F, 0xC6, 0x01, 0xCB, 0x37, 0x20, 0x02, 0x00, 0x00, 0x04, 0xC3, 0x00, 0x01];
    let table = DecodeTable::production();
    let mut direct = cpu_at(0x0100, &program);
    let mut tabled = cpu_at(0x0100, &program);
    for _ in 0..20 {
        let expected = direct.step();
        assert_eq!(tabled.step_with(&table), Ok(expected));
        assert_eq!(tabled.pc, direct.pc);
        assert_eq!(tabled.registers, direct.registers);
    }
    assert_eq!(direct.registers.b, 3);
}
