//! The memory surface: 64 KiB of byte-addressable storage, with no meaning
//! attached to any address range.
use vstd::prelude::*;

verus! {

/// Number of addressable bytes: every 16-bit address names one.
pub const MEMORY_SIZE: usize = 0x1_0000;

/// Byte-addressable storage over the whole 16-bit address space. The engine
/// works against this interface, so any backing store can stand behind it.
pub trait MemorySurface {
    /// The byte stored at `address`: what `read` returns and `write` sets.
    /// Contracts speak of memory through this function alone. Compiled code
    /// never calls it; an implementation written without Verus gives it the
    /// body of `read`.
    spec fn byte_at(&self, address: u16) -> u8;

    /// Reads the byte at `address`.
    fn read(&self, address: u16) -> (value: u8)
        ensures
            value == self.byte_at(address),
    ;

    /// Stores `value` at `address`; every other address keeps its byte.
    fn write(&mut self, address: u16, value: u8)
        ensures
            final(self).byte_at(address) == value,
            forall|other: u16|
                other != address ==> #[trigger] final(self).byte_at(other) == old(self).byte_at(other),
    ;
}

/// The minimal memory surface: one flat array, zero when created.
#[derive(Debug)]
pub struct Bus {
    memory: [u8; 0x1_0000],
}

impl View for Bus {
    type V = Seq<u8>;

    closed spec fn view(&self) -> Seq<u8> {
        self.memory@
    }
}

impl Bus {
    /// A bus whose 65536 bytes are all zero.
    pub fn new() -> (bus: Bus)
        ensures
            bus@.len() == MEMORY_SIZE,
            forall|address: int| 0 <= address < MEMORY_SIZE ==> bus@[address] == 0,
    {
        Bus { memory: [0u8; 0x1_0000] }
    }

    /// Reads the byte at `loc`. Every address is backed, so this never fails.
    pub fn read_byte(&self, loc: u16) -> (value: u8)
        ensures
            value == self@[loc as int],
    {
        self.memory[loc as usize]
    }

    /// Stores `value` at `loc` and leaves every other byte as it was.
    pub fn write_byte(&mut self, loc: u16, value: u8)
        ensures
            final(self)@ == old(self)@.update(loc as int, value),
            final(self)@.len() == MEMORY_SIZE,
    {
        self.memory[loc as usize] = value;
    }

    /// A bus always holds exactly one byte per 16-bit address.
    pub proof fn lemma_len(&self)
        ensures
            self@.len() == MEMORY_SIZE,
    {
    }
}

impl MemorySurface for Bus {
    open spec fn byte_at(&self, address: u16) -> u8 {
        self@[address as int]
    }

    fn read(&self, address: u16) -> (value: u8) {
        self.read_byte(address)
    }

    fn write(&mut self, address: u16, value: u8) {
        self.write_byte(address, value)
    }
}

} // verus!
