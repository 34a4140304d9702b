//! Flat fixed-size byte memory with bounds-wrapped addressing: every address
//! is reduced modulo the memory length, so no access is ever out of range.

use vstd::prelude::*;

verus! {

/// Number of addressable bytes.
pub const MEMORY_LENGTH: usize = 4096;

/// The machine's byte memory. Its view is the sequence of all 4096 cells.
pub struct Memory {
    bytes: Vec<u8>,
}

impl View for Memory {
    type V = Seq<u8>;

    closed spec fn view(&self) -> Seq<u8> {
        self.bytes@
    }
}

impl Memory {
    pub open spec fn wf(&self) -> bool {
        self@.len() == MEMORY_LENGTH
    }

    /// Fresh memory: every cell zero.
    pub fn new() -> (r: Memory)
        ensures
            r.wf(),
            forall|a: int| 0 <= a < MEMORY_LENGTH ==> r@[a] == 0u8,
    {
        Memory { bytes: vec![0u8; MEMORY_LENGTH] }
    }

    /// Read the cell at `address`, reduced modulo the memory length.
    pub fn read(&self, address: u16) -> (r: u8)
        requires
            self.wf(),
        ensures
            r == self@[address as int % MEMORY_LENGTH as int],
            address < MEMORY_LENGTH ==> r == self@[address as int],
    {
        proof {
            if address < MEMORY_LENGTH {
                vstd::arithmetic::div_mod::lemma_small_mod(address as nat, MEMORY_LENGTH as nat);
            }
        }
        self.bytes[(address as usize) % MEMORY_LENGTH]
    }

    /// Write `value` to the cell at `address`, reduced modulo the memory length.
    pub fn write(&mut self, address: u16, value: u8)
        requires
            old(self).wf(),
        ensures
            final(self).wf(),
            final(self)@ == old(self)@.update(address as int % MEMORY_LENGTH as int, value),
            address < MEMORY_LENGTH ==> final(self)@ == old(self)@.update(
                address as int,
                value,
            ),
    {
        proof {
            if address < MEMORY_LENGTH {
                vstd::arithmetic::div_mod::lemma_small_mod(address as nat, MEMORY_LENGTH as nat);
            }
        }
        let a: usize = (address as usize) % MEMORY_LENGTH;
        self.bytes[a] = value;
    }
}

} // verus!
