//! Byte storage: a flat array of 65536 bytes, all zero until written.

use crate::asc::MemoryMapped;
use std::collections::HashMap;
use vstd::prelude::*;

verus! {

/// The number of cells of a byte storage, one for each 16-bit address.
pub const RAM_SIZE: usize = 0x10000;

/// Byte storage over the whole 16-bit address space.
///
/// Only the cells that were written are held; the others read as zero.
#[derive(Debug)]
pub struct Ram {
    memory: HashMap<u16, u8>,
}

/// The storage in which every cell is zero.
pub open spec fn blank() -> Seq<u8> {
    Seq::new(RAM_SIZE as nat, |addr: int| 0u8)
}

/// The storage `memory` with `bytes` copied into the cells from `offset` on.
pub open spec fn loaded(memory: Seq<u8>, bytes: Seq<u8>, offset: u16) -> Seq<u8> {
    Seq::new(
        RAM_SIZE as nat,
        |addr: int|
            if offset <= addr < offset + bytes.len() {
                bytes[addr - offset]
            } else {
                memory[addr]
            },
    )
}

impl View for Ram {
    type V = Seq<u8>;

    /// The storage as a sequence of 65536 bytes, indexed by address.
    closed spec fn view(&self) -> Seq<u8> {
        Seq::new(
            RAM_SIZE as nat,
            |addr: int|
                if self.memory@.contains_key(addr as u16) {
                    self.memory@[addr as u16]
                } else {
                    0u8
                },
        )
    }
}

impl Default for Ram {
    /// A storage in which every cell is zero.
    fn default() -> (ram: Ram)
        ensures
            ram@ == blank(),
    {
        Ram::new()
    }
}

impl Ram {
    /// A storage in which every cell is zero.
    pub fn new() -> (ram: Ram)
        ensures
            ram@ == blank(),
    {
        let ram = Ram { memory: HashMap::new() };
        assert(ram@ =~= blank());
        ram
    }

    /// Every storage holds exactly one byte for each address.
    pub proof fn lemma_len(&self)
        ensures
            self@.len() == RAM_SIZE,
    {
    }

    /// Copies `bytes` into the cells from `offset` on, leaving the others as
    /// they were. The bytes must fit below the end of the address space.
    pub fn load_vec_at(&mut self, bytes: Vec<u8>, offset: u16)
        requires
            offset + bytes.len() <= RAM_SIZE,
        ensures
            final(self)@ == loaded(old(self)@, bytes@, offset),
    {
        let mut i: usize = 0;
        while i < bytes.len()
            invariant
                i <= bytes.len(),
                offset + bytes.len() <= RAM_SIZE,
                self@ =~= loaded(old(self)@, bytes@.take(i as int), offset),
            decreases bytes.len() - i,
        {
            self.write((i + offset as usize) as u16, bytes[i]);
            i += 1;
        }
        assert(bytes@.take(bytes.len() as int) =~= bytes@);
    }
}

impl MemoryMapped for Ram {
    /// A storage is always well formed.
    open spec fn inv(&self) -> bool {
        true
    }

    /// A write replaces the one cell at `addr`.
    open spec fn write_spec(state: Seq<u8>, addr: u16, value: u8) -> Seq<u8> {
        state.update(addr as int, value)
    }

    /// A read gives the cell at `addr` and leaves the storage as it is.
    open spec fn read_spec(state: Seq<u8>, addr: u16) -> (Seq<u8>, u8) {
        (state, state[addr as int])
    }

    fn write(&mut self, addr: u16, value: u8) {
        self.memory.insert(addr, value);
        assert(self@ =~= old(self)@.update(addr as int, value));
    }

    fn read(&mut self, addr: u16) -> (value: u8) {
        match self.memory.get(&addr) {
            Some(v) => *v,
            None => 0,
        }
    }
}

} // verus!
