//! A plain memory covering the whole address space, verified against the interface contract.
use crate::bus::{BusAccess, Interface6502};
use vstd::prelude::*;

verus! {

/// The number of addresses a 16-bit address bus reaches.
pub const ADDRESS_SPACE: usize = 0x10000;

/// 64 KiB of memory behind every address, with no mapped devices. It keeps the record of the
/// accesses made through it as a ghost log.
pub struct Ram {
    memory: Vec<u8>,
    log: Ghost<Seq<BusAccess>>,
}

impl Ram {
    /// The bytes held, indexed by address.
    pub closed spec fn contents(&self) -> Seq<u8> {
        self.memory@
    }

    /// A cleared memory with an empty access record.
    pub fn new() -> (r: Ram)
        ensures
            r.contents().len() == ADDRESS_SPACE,
            forall|i: int| 0 <= i < ADDRESS_SPACE ==> r.contents()[i] == 0,
            r.accesses() == Seq::<BusAccess>::empty(),
    {
        let mut memory: Vec<u8> = Vec::new();
        while memory.len() < ADDRESS_SPACE
            invariant
                memory.len() <= ADDRESS_SPACE,
                forall|i: int| 0 <= i < memory.len() ==> memory@[i] == 0,
            decreases ADDRESS_SPACE - memory.len(),
        {
            memory.push(0);
        }
        Ram { memory, log: Ghost(Seq::empty()) }
    }

    /// The byte at an address, without recording an access.
    pub fn peek(&self, address: u16) -> (r: u8)
        requires
            self.contents().len() == ADDRESS_SPACE,
        ensures
            r == self.contents()[address as int],
    {
        self.memory[address as usize]
    }

    /// Stores a byte at an address, without recording an access (for loading programs).
    pub fn poke(&mut self, address: u16, data: u8)
        requires
            old(self).contents().len() == ADDRESS_SPACE,
        ensures
            final(self).contents() == old(self).contents().update(address as int, data),
            final(self).accesses() == old(self).accesses(),
    {
        self.memory.set(address as usize, data);
    }
}

impl Interface6502 for Ram {
    closed spec fn accesses(&self) -> Seq<BusAccess> {
        self.log@
    }

    /// Reads the byte stored at the address (zero where the memory does not reach)
    fn read(&mut self, address: u16) -> (data: u8) {
        let data = if (address as usize) < self.memory.len() {
            self.memory[address as usize]
        } else {
            0
        };
        self.log = Ghost(self.log@.push(BusAccess::Read(address, data)));
        data
    }

    /// Stores the byte at the address (nothing where the memory does not reach)
    fn write(&mut self, address: u16, data: u8) {
        if (address as usize) < self.memory.len() {
            self.memory.set(address as usize, data);
        }
        self.log = Ghost(self.log@.push(BusAccess::Write(address, data)));
    }
}

} // verus!
