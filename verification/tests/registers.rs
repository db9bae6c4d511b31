//! Flags, the register file and the memory bus on concrete values.

use cpu_core::flags::Flags;
use cpu_core::memory::{MemoryBus, MEMORY_SIZE};
use cpu_core::registers::{join_bytes, split_bytes, Pair, Reg8, Registers};

#[test]
fn flags_pack_into_the_high_nibble() {
    let none = Flags { zero: false, subtract: false, half_carry: false, carry: false };
    assert_eq!(Flags::new(), none);
    assert_eq!(none.to_byte(), 0x00);
    assert_eq!(Flags { zero: true, ..none }.to_byte(), 0x80);
    assert_eq!(Flags { subtract: true, ..none }.to_byte(), 0x40);
    assert_eq!(Flags { half_carry: true, ..none }.to_byte(), 0x20);
    assert_eq!(Flags { carry: true, ..none }.to_byte(), 0x10);
    let all = Flags { zero: true, subtract: true, half_carry: true, carry: true };
    assert_eq!(all.to_byte(), 0xF0);
}

#[test]
fn flags_round_trip_through_the_packed_byte() {
    for byte in 0..=255u8 {
        let flags = Flags::from_byte(byte);
        assert_eq!(flags.zero, byte & 0x80 != 0);
        assert_eq!(flags.subtract, byte & 0x40 != 0);
        assert_eq!(flags.half_carry, byte & 0x20 != 0);
        assert_eq!(flags.carry, byte & 0x10 != 0);
        assert_eq!(flags.to_byte(), byte & 0xF0);
        assert_eq!(Flags::from_byte(flags.to_byte()), flags);
    }
}

#[test]
fn bytes_join_high_first() {
    assert_eq!(join_bytes(0x12, 0x34), 0x1234);
    assert_eq!(join_bytes(0x00, 0xFF), 0x00FF);
    assert_eq!(join_bytes(0xFF, 0x00), 0xFF00);
    assert_eq!(split_bytes(0x1234), (0x12, 0x34));
    assert_eq!(split_bytes(0xFF00), (0xFF, 0x00));
}

#[test]
fn registers_are_read_and_written_by_name() {
    let names = [Reg8::A, Reg8::B, Reg8::C, Reg8::D, Reg8::E, Reg8::H, Reg8::L];
    let mut registers = Registers::new();
    for name in names {
        assert_eq!(registers.get(name), 0);
    }
    for (i, name) in names.iter().enumerate() {
        registers.set(*name, 0x10 + i as u8);
    }
    assert_eq!(
        (registers.a, registers.b, registers.c, registers.d, registers.e, registers.h, registers.l),
        (0x10, 0x11, 0x12, 0x13, 0x14, 0x15, 0x16)
    );
    for (i, name) in names.iter().enumerate() {
        assert_eq!(registers.get(*name), 0x10 + i as u8);
    }
    assert_eq!(registers.f, Flags::new());
}

#[test]
fn pairs_are_views_of_two_registers() {
    let mut registers = Registers::new();
    registers.b = 0x12;
    registers.c = 0x34;
    assert_eq!(registers.get_bc(), 0x1234);
    registers.set_de(0xABCD);
    assert_eq!((registers.d, registers.e), (0xAB, 0xCD));
    assert_eq!(registers.get_de(), 0xABCD);
    registers.set_hl(0xFFFE);
    assert_eq!((registers.h, registers.l), (0xFF, 0xFE));
    assert_eq!(registers.get_hl(), 0xFFFE);
    registers.set_bc(0x0001);
    assert_eq!((registers.b, registers.c), (0x00, 0x01));
    assert_eq!(registers.get_pair(Pair::BC), 0x0001);
    assert_eq!(registers.get_pair(Pair::DE), 0xABCD);
    assert_eq!(registers.get_pair(Pair::HL), 0xFFFE);
    registers.set_pair(Pair::HL, 0x8000);
    assert_eq!(registers.get_hl(), 0x8000);
    assert_eq!(registers.a, 0);
}

#[test]
fn the_pair_af_drops_the_low_nibble() {
    let mut registers = Registers::new();
    registers.set_af(0x12FF);
    assert_eq!(registers.a, 0x12);
    assert_eq!(registers.f, Flags { zero: true, subtract: true, half_carry: true, carry: true });
    assert_eq!(registers.get_af(), 0x12F0);
    registers.set_pair(Pair::AF, 0x3495);
    assert_eq!(registers.a, 0x34);
    assert_eq!(registers.f, Flags { zero: true, subtract: false, half_carry: false, carry: true });
    assert_eq!(registers.get_pair(Pair::AF), 0x3490);
    assert_eq!((registers.b, registers.c), (0, 0));
}

#[test]
fn a_new_bus_is_zero_everywhere() {
    let bus = MemoryBus::new();
    assert_eq!(bus.read_byte(0x0000), 0);
    assert_eq!(bus.read_byte(0x8000), 0);
    assert_eq!(bus.read_byte(0xFFFF), 0);
}

#[test]
fn a_write_is_read_back_at_every_address() {
    let mut bus = MemoryBus::new();
    bus.write_byte(0x0000, 0x11);
    bus.write_byte(0xFFFF, 0x22);
    bus.write_byte(0x1234, 0x33);
    assert_eq!(bus.read_byte(0x0000), 0x11);
    assert_eq!(bus.read_byte(0xFFFF), 0x22);
    assert_eq!(bus.read_byte(0x1234), 0x33);
    assert_eq!(bus.read_byte(0x1233), 0x00);
    assert_eq!(bus.read_byte(0x1235), 0x00);
    bus.write_byte(0x1234, 0x44);
    assert_eq!(bus.read_byte(0x1234), 0x44);
    assert_eq!(bus.read_byte(0xFFFF), 0x22);
}

#[test]
fn an_image_is_loaded_from_address_zero() {
    let bus = MemoryBus::from_image(&[0xDE, 0xAD, 0xBE, 0xEF]);
    assert_eq!(bus.read_byte(0), 0xDE);
    assert_eq!(bus.read_byte(1), 0xAD);
    assert_eq!(bus.read_byte(2), 0xBE);
    assert_eq!(bus.read_byte(3), 0xEF);
    assert_eq!(bus.read_byte(4), 0x00);
    assert_eq!(bus.read_byte(0xFFFF), 0x00);
    let empty = MemoryBus::from_image(&[]);
    assert_eq!(empty.read_byte(0), 0x00);
}

#[test]
fn a_full_image_fills_the_bus() {
    let image: Vec<u8> = (0..MEMORY_SIZE).map(|i| (i % 251) as u8).collect();
    let bus = MemoryBus::from_image(&image);
    assert_eq!(bus.read_byte(0x0000), 0);
    assert_eq!(bus.read_byte(0x00FB), 0);
    assert_eq!(bus.read_byte(0x00FA), 250);
    assert_eq!(bus.read_byte(0xFFFF), (0xFFFF % 251) as u8);
}

#[test]
fn an_image_longer_than_the_bus_is_cut_off() {
    let image: Vec<u8> = (0..MEMORY_SIZE + 10).map(|i| (i % 253) as u8).collect();
    let bus = MemoryBus::from_image(&image);
    assert_eq!(bus.read_byte(0x0000), 0);
    assert_eq!(bus.read_byte(0x0001), 1);
    assert_eq!(bus.read_byte(0xFFFF), (0xFFFF % 253) as u8);
}
