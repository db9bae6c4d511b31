//! The memory bus: a flat store of 65536 bytes addressed by 16-bit
//! addresses. Every address is valid, so neither operation can fail.

use vstd::prelude::*;

verus! {

/// The number of bytes on the bus: one for each 16-bit address.
pub const MEMORY_SIZE: usize = 65536;

/// A flat, byte-addressable memory of `MEMORY_SIZE` bytes.
pub struct MemoryBus {
    memory: [u8; 65536],
}

impl View for MemoryBus {
    type V = Seq<u8>;

    /// The contents of the bus: byte `i` of the sequence is the byte at
    /// address `i`.
    closed spec fn view(&self) -> Seq<u8> {
        self.memory@
    }
}

/// The memory that holds `image` from address 0 on and zero above it.
pub open spec fn image_contents(image: Seq<u8>) -> Seq<u8> {
    Seq::new(
        MEMORY_SIZE as nat,
        |i: int|
            if i < image.len() {
                image[i]
            } else {
                0u8
            },
    )
}

impl MemoryBus {
    /// The bus holds exactly one byte for each address.
    pub proof fn lemma_size(&self)
        ensures
            self@.len() == MEMORY_SIZE,
    {
    }

    /// A byte that was written is the byte that is read at its address, and
    /// a write changes the byte at no other address.
    pub proof fn lemma_write_then_read(&self, written: u16, value: u8, read: u16)
        ensures
            self@.update(written as int, value)[read as int] == if read == written {
                value
            } else {
                self@[read as int]
            },
            self@.update(written as int, value).len() == MEMORY_SIZE,
    {
    }

    /// A bus with every byte zero.
    pub fn new() -> (bus: MemoryBus)
        ensures
            bus@ == image_contents(Seq::empty()),
    {
        let bus = MemoryBus { memory: [0u8;65536] };
        assert(bus@ =~= image_contents(Seq::empty()));
        bus
    }

    /// A bus that holds `image` from address 0 on, and zero in every byte
    /// above it. Of an image that is longer than the memory, the bytes
    /// that fit are held and the rest is left out.
    pub fn from_image(image: &[u8]) -> (bus: MemoryBus)
        ensures
            bus@ == image_contents(image@),
    {
        let mut memory = [0u8;65536];
        let length = if image.len() < MEMORY_SIZE {
            image.len()
        } else {
            MEMORY_SIZE
        };
        for i in 0..length
            invariant
                length <= image@.len(),
                length <= MEMORY_SIZE,
                forall|j: int| 0 <= j < i ==> memory@[j] == image@[j],
                forall|j: int| i <= j < MEMORY_SIZE ==> memory@[j] == 0u8,
        {
            memory[i] = image[i];
        }
        let bus = MemoryBus { memory };
        assert(bus@ =~= image_contents(image@));
        bus
    }

    /// Reads the byte at `addr`.
    pub fn read_byte(&self, addr: u16) -> (value: u8)
        ensures
            value == self@[addr as int],
    {
        self.memory[addr as usize]
    }

    /// Writes `value` at `addr`; every other byte keeps its value.
    pub fn write_byte(&mut self, addr: u16, value: u8)
        ensures
            final(self)@ == old(self)@.update(addr as int, value),
    {
        self.memory[addr as usize] = value;
    }
}

} // verus!
