//! The four condition flags and their packed byte form.

use vstd::prelude::*;

verus! {

/// The condition flags of the CPU: four independent booleans.
#[derive(Clone, Copy, Debug, PartialEq, Eq, Structural)]
pub struct Flags {
    /// Z: the last result was zero.
    pub zero: bool,
    /// N: the last operation was a subtraction.
    pub subtract: bool,
    /// H: carry or borrow out of the low four bits.
    pub half_carry: bool,
    /// C: carry or borrow out of the whole value.
    pub carry: bool,
}

/// The weight of a flag in the packed byte: `weight` if set, 0 if clear.
pub open spec fn flag_weight(flag: bool, weight: int) -> int {
    if flag {
        weight
    } else {
        0
    }
}

/// Flag bits that lie in different places are or-ed by adding them.
proof fn lemma_pack_bits(z: u8, n: u8, h: u8, c: u8)
    by (bit_vector)
    requires
        z == 0 || z == 0x80,
        n == 0 || n == 0x40,
        h == 0 || h == 0x20,
        c == 0 || c == 0x10,
    ensures
        (z | n | h | c) == z + n + h + c,
{
}

/// Masking a flag's bit is reading that binary digit of the byte.
proof fn lemma_unpack_bits(byte: u8)
    by (bit_vector)
    ensures
        (byte & 0x80 != 0) == ((byte / 128) % 2 == 1),
        (byte & 0x40 != 0) == ((byte / 64) % 2 == 1),
        (byte & 0x20 != 0) == ((byte / 32) % 2 == 1),
        (byte & 0x10 != 0) == ((byte / 16) % 2 == 1),
{
}

impl Flags {
    /// The packed byte as a number: Z is bit 7, N bit 6, H bit 5, C bit 4,
    /// and the low four bits are zero.
    pub open spec fn packed(self) -> int {
        flag_weight(self.zero, 128) + flag_weight(self.subtract, 64) + flag_weight(
            self.half_carry,
            32,
        ) + flag_weight(self.carry, 16)
    }

    /// The flags that a packed byte stands for; its low four bits are ignored.
    pub open spec fn unpacked(byte: u8) -> Flags {
        Flags {
            zero: (byte / 128) % 2 == 1,
            subtract: (byte / 64) % 2 == 1,
            half_carry: (byte / 32) % 2 == 1,
            carry: (byte / 16) % 2 == 1,
        }
    }

    /// All four flags clear.
    pub fn new() -> (flags: Flags)
        ensures
            flags == (Flags { zero: false, subtract: false, half_carry: false, carry: false }),
    {
        Flags { zero: false, subtract: false, half_carry: false, carry: false }
    }

    /// Packs the flags into one byte.
    pub fn to_byte(self) -> (byte: u8)
        ensures
            byte == self.packed(),
    {
        let z: u8 = if self.zero {
            0x80
        } else {
            0
        };
        let n: u8 = if self.subtract {
            0x40
        } else {
            0
        };
        let h: u8 = if self.half_carry {
            0x20
        } else {
            0
        };
        let c: u8 = if self.carry {
            0x10
        } else {
            0
        };
        proof {
            lemma_pack_bits(z, n, h, c);
        }
        z | n | h | c
    }

    /// Reads the flags out of a packed byte.
    pub fn from_byte(byte: u8) -> (flags: Flags)
        ensures
            flags == Flags::unpacked(byte),
    {
        proof {
            lemma_unpack_bits(byte);
        }
        Flags {
            zero: byte & 0x80 != 0,
            subtract: byte & 0x40 != 0,
            half_carry: byte & 0x20 != 0,
            carry: byte & 0x10 != 0,
        }
    }
}

/// Packing and unpacking agree: unpacking a packed byte gives the flags
/// back, and packing what was unpacked keeps the high four bits of the
/// byte and clears the low four.
pub proof fn lemma_flags_round_trip(flags: Flags, byte: u8)
    ensures
        0 <= flags.packed() < 256,
        flags.packed() % 16 == 0,
        Flags::unpacked(flags.packed() as u8) == flags,
        Flags::unpacked(byte).packed() == byte - byte % 16,
{
}

} // verus!
