//! The register file: seven 8-bit registers, the flags, and the 16-bit
//! pairs that are views of two registers each.

use vstd::prelude::*;
use crate::flags::Flags;

verus! {

/// The name of an 8-bit register.
#[derive(Clone, Copy, Debug, PartialEq, Eq, Structural)]
pub enum Reg8 {
    A,
    B,
    C,
    D,
    E,
    H,
    L,
}

/// The name of a register pair. The first letter names the high byte.
/// The low byte of `AF` is the packed flags.
#[derive(Clone, Copy, Debug, PartialEq, Eq, Structural)]
pub enum Pair {
    AF,
    BC,
    DE,
    HL,
}

/// The 8-bit registers and the flags.
#[derive(Clone, Copy, Debug, PartialEq, Eq, Structural)]
pub struct Registers {
    pub a: u8,
    pub b: u8,
    pub c: u8,
    pub d: u8,
    pub e: u8,
    pub h: u8,
    pub l: u8,
    pub f: Flags,
}

/// The 16-bit value whose high byte is `high` and whose low byte is `low`.
pub open spec fn join(high: u8, low: u8) -> u16 {
    (high * 256 + low) as u16
}

/// The high byte of a 16-bit value.
pub open spec fn high_byte(value: u16) -> u8 {
    (value / 256) as u8
}

/// The low byte of a 16-bit value.
pub open spec fn low_byte(value: u16) -> u8 {
    (value % 256) as u8
}

/// Shifting the high byte up and or-ing the low byte in is `high * 256 +
/// low`.
proof fn lemma_join_bits(high: u8, low: u8)
    by (bit_vector)
    ensures
        ((high as u16) << 8 | (low as u16)) == high * 256 + low,
{
}

/// Shifting down by eight is dividing by 256, and masking the low byte is
/// the remainder.
proof fn lemma_split_bits(value: u16)
    by (bit_vector)
    ensures
        ((value >> 8) as u8) == value / 256,
        ((value & 0xFF) as u8) == value % 256,
{
}

/// Joins two bytes into a 16-bit value, high byte first.
pub fn join_bytes(high: u8, low: u8) -> (value: u16)
    ensures
        value == join(high, low),
{
    proof {
        lemma_join_bits(high, low);
    }
    (high as u16) << 8 | (low as u16)
}

/// Splits a 16-bit value into its high and low bytes.
pub fn split_bytes(value: u16) -> (halves: (u8, u8))
    ensures
        halves == (high_byte(value), low_byte(value)),
{
    proof {
        lemma_split_bits(value);
    }
    ((value >> 8) as u8, (value & 0xFF) as u8)
}

impl Registers {
    /// The value of the register named `name`.
    pub open spec fn value_of(self, name: Reg8) -> u8 {
        match name {
            Reg8::A => self.a,
            Reg8::B => self.b,
            Reg8::C => self.c,
            Reg8::D => self.d,
            Reg8::E => self.e,
            Reg8::H => self.h,
            Reg8::L => self.l,
        }
    }

    /// The register file with the register named `name` set to `value`.
    pub open spec fn with(self, name: Reg8, value: u8) -> Registers {
        match name {
            Reg8::A => Registers { a: value, ..self },
            Reg8::B => Registers { b: value, ..self },
            Reg8::C => Registers { c: value, ..self },
            Reg8::D => Registers { d: value, ..self },
            Reg8::E => Registers { e: value, ..self },
            Reg8::H => Registers { h: value, ..self },
            Reg8::L => Registers { l: value, ..self },
        }
    }

    /// The value of the pair named `name`.
    pub open spec fn pair(self, name: Pair) -> u16 {
        match name {
            Pair::AF => join(self.a, self.f.packed() as u8),
            Pair::BC => join(self.b, self.c),
            Pair::DE => join(self.d, self.e),
            Pair::HL => join(self.h, self.l),
        }
    }

    /// The register file with the pair named `name` set to `value`: both
    /// halves change together. Writing `AF` drops the low four bits.
    pub open spec fn with_pair(self, name: Pair, value: u16) -> Registers {
        match name {
            Pair::AF => Registers {
                a: high_byte(value),
                f: Flags::unpacked(low_byte(value)),
                ..self
            },
            Pair::BC => Registers { b: high_byte(value), c: low_byte(value), ..self },
            Pair::DE => Registers { d: high_byte(value), e: low_byte(value), ..self },
            Pair::HL => Registers { h: high_byte(value), l: low_byte(value), ..self },
        }
    }

    /// A register file with every register zero and every flag clear.
    pub fn new() -> (registers: Registers)
        ensures
            registers == (Registers {
                a: 0,
                b: 0,
                c: 0,
                d: 0,
                e: 0,
                h: 0,
                l: 0,
                f: Flags { zero: false, subtract: false, half_carry: false, carry: false },
            }),
    {
        Registers { a: 0, b: 0, c: 0, d: 0, e: 0, h: 0, l: 0, f: Flags::new() }
    }

    /// Reads an 8-bit register by name.
    pub fn get(&self, name: Reg8) -> (value: u8)
        ensures
            value == self.value_of(name),
    {
        match name {
            Reg8::A => self.a,
            Reg8::B => self.b,
            Reg8::C => self.c,
            Reg8::D => self.d,
            Reg8::E => self.e,
            Reg8::H => self.h,
            Reg8::L => self.l,
        }
    }

    /// Writes an 8-bit register by name; nothing else changes.
    pub fn set(&mut self, name: Reg8, value: u8)
        ensures
            *final(self) == old(self).with(name, value),
    {
        match name {
            Reg8::A => {
                self.a = value;
            },
            Reg8::B => {
                self.b = value;
            },
            Reg8::C => {
                self.c = value;
            },
            Reg8::D => {
                self.d = value;
            },
            Reg8::E => {
                self.e = value;
            },
            Reg8::H => {
                self.h = value;
            },
            Reg8::L => {
                self.l = value;
            },
        }
    }

    /// Reads the pair AF: A is the high byte, the packed flags the low byte.
    pub fn get_af(&self) -> (value: u16)
        ensures
            value == self.pair(Pair::AF),
    {
        join_bytes(self.a, self.f.to_byte())
    }

    /// Writes the pair AF. The low four bits of `value` have no flag and
    /// are dropped.
    pub fn set_af(&mut self, value: u16)
        ensures
            *final(self) == old(self).with_pair(Pair::AF, value),
    {
        let (high, low) = split_bytes(value);
        self.a = high;
        self.f = Flags::from_byte(low);
    }

    /// Reads the pair BC.
    pub fn get_bc(&self) -> (value: u16)
        ensures
            value == self.pair(Pair::BC),
    {
        join_bytes(self.b, self.c)
    }

    /// Writes the pair BC.
    pub fn set_bc(&mut self, value: u16)
        ensures
            *final(self) == old(self).with_pair(Pair::BC, value),
    {
        let (high, low) = split_bytes(value);
        self.b = high;
        self.c = low;
    }

    /// Reads the pair DE.
    pub fn get_de(&self) -> (value: u16)
        ensures
            value == self.pair(Pair::DE),
    {
        join_bytes(self.d, self.e)
    }

    /// Writes the pair DE.
    pub fn set_de(&mut self, value: u16)
        ensures
            *final(self) == old(self).with_pair(Pair::DE, value),
    {
        let (high, low) = split_bytes(value);
        self.d = high;
        self.e = low;
    }

    /// Reads the pair HL.
    pub fn get_hl(&self) -> (value: u16)
        ensures
            value == self.pair(Pair::HL),
    {
        join_bytes(self.h, self.l)
    }

    /// Writes the pair HL.
    pub fn set_hl(&mut self, value: u16)
        ensures
            *final(self) == old(self).with_pair(Pair::HL, value),
    {
        let (high, low) = split_bytes(value);
        self.h = high;
        self.l = low;
    }

    /// Reads a pair by name.
    pub fn get_pair(&self, name: Pair) -> (value: u16)
        ensures
            value == self.pair(name),
    {
        match name {
            Pair::AF => self.get_af(),
            Pair::BC => self.get_bc(),
            Pair::DE => self.get_de(),
            Pair::HL => self.get_hl(),
        }
    }

    /// Writes a pair by name.
    pub fn set_pair(&mut self, name: Pair, value: u16)
        ensures
            *final(self) == old(self).with_pair(name, value),
    {
        match name {
            Pair::AF => self.set_af(value),
            Pair::BC => self.set_bc(value),
            Pair::DE => self.set_de(value),
            Pair::HL => self.set_hl(value),
        }
    }
}

/// A 16-bit value is the join of its two halves.
pub proof fn lemma_join_of_halves(value: u16)
    ensures
        join(high_byte(value), low_byte(value)) == value,
{
}

/// The halves of a join are the bytes that were joined.
pub proof fn lemma_halves_of_join(high: u8, low: u8)
    ensures
        high_byte(join(high, low)) == high,
        low_byte(join(high, low)) == low,
{
}

/// Reading a register after writing it gives the value written, and the
/// other registers keep theirs.
pub proof fn lemma_register_write_then_read(
    registers: Registers,
    written: Reg8,
    value: u8,
    read: Reg8,
)
    ensures
        registers.with(written, value).value_of(read) == if read == written {
            value
        } else {
            registers.value_of(read)
        },
        registers.with(written, value).f == registers.f,
{
}

/// A pair round-trips through its two halves: reading a pair after
/// writing it gives the value written. For `AF` the low four bits, which
/// have no flag, read back as zero.
pub proof fn lemma_pair_write_then_read(registers: Registers, name: Pair, value: u16)
    ensures
        name != Pair::AF ==> registers.with_pair(name, value).pair(name) == value,
        name == Pair::AF ==> registers.with_pair(name, value).pair(name) == value - value % 16,
{
    lemma_join_of_halves(value);
    if name == Pair::AF {
        let low = low_byte(value);
        crate::flags::lemma_flags_round_trip(Flags::unpacked(low), low);
    }
}

} // verus!
