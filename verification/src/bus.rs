//! The flat 64 KiB memory that the processor reads and writes.

use vstd::prelude::*;

verus! {

/// A flat, byte-addressable 64 KiB memory.
#[derive(Copy, Clone)]
pub struct Bus {
    pub ram: [u8; 65536],
}

impl View for Bus {
    type V = Seq<u8>;

    /// The memory as a sequence of 65536 bytes, indexed by address.
    open spec fn view(&self) -> Seq<u8> {
        self.ram@
    }
}

impl Bus {
    /// A memory with every byte zero.
    pub fn new() -> (bus: Bus)
        ensures
            bus@.len() == 65536,
            forall|addr: int| 0 <= addr < 65536 ==> bus@[addr] == 0,
    {
        Bus { ram: [0; 65536] }
    }

    /// Stores `data` at `addr`; every other byte keeps its value.
    pub fn write(&mut self, addr: u16, data: u8)
        ensures
            final(self)@ == old(self)@.update(addr as int, data),
    {
        self.ram[addr as usize] = data;
    }

    /// The byte at `addr`. The flag is accepted for interface compatibility and has no effect.
    pub fn read(&self, addr: u16, read_only: bool) -> (data: u8)
        ensures
            data == self@[addr as int],
    {
        self.ram[addr as usize]
    }
}

} // verus!
