//! The memory bus: a flat, byte-addressable store over the full 16-bit
//! address space.

use vstd::prelude::*;

verus! {

/// Number of addressable bytes: the whole 16-bit address space.
pub const MEMORY_SIZE: usize = 0x10000;

/// Plain RAM covering every 16-bit address. Reads have no side effects.
pub struct Bus {
    memory: Vec<u8>,
}

impl View for Bus {
    type V = Seq<u8>;

    /// The byte stored at each address, indexed by address.
    closed spec fn view(&self) -> Seq<u8> {
        self.memory@
    }
}

impl Bus {
    /// A bus covers exactly the 16-bit address space.
    pub open spec fn wf(&self) -> bool {
        self@.len() == MEMORY_SIZE
    }

    /// A bus whose every byte is zero.
    pub fn new() -> (r: Bus)
        ensures
            r.wf(),
            forall|i: int| 0 <= i < MEMORY_SIZE ==> r@[i] == 0u8,
    {
        let mut memory: Vec<u8> = Vec::new();
        while memory.len() < MEMORY_SIZE
            invariant
                memory@.len() <= MEMORY_SIZE,
                forall|i: int| 0 <= i < memory@.len() ==> memory@[i] == 0u8,
            decreases MEMORY_SIZE - memory@.len(),
        {
            memory.push(0u8);
        }
        Bus { memory }
    }

    /// The byte at `address`. Plain storage has no read side effects, so
    /// `side_effect_free` changes nothing here; it is kept for inspection
    /// tools that ask for a read that cannot disturb a device.
    pub fn read(&self, address: u16, side_effect_free: Option<bool>) -> (r: u8)
        requires
            self.wf(),
        ensures
            r == self@[address as int],
    {
        self.memory[address as usize]
    }

    /// Stores `data` at `address`; every other byte is kept.
    pub fn write(&mut self, address: u16, data: u8)
        requires
            old(self).wf(),
        ensures
            final(self)@ == old(self)@.update(address as int, data),
            final(self).wf(),
    {
        self.memory.set(address as usize, data);
    }
}

} // verus!
