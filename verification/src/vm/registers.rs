//! The sixteen byte-sized general registers and the 16-bit index register.

use vstd::prelude::*;
use crate::opcode::DataRegister;

verus! {

/// The register file. Its view is the sequence of the sixteen general
/// registers; the index register is the plain field `i`.
pub struct Registers {
    pub registers: Vec<u8>,
    pub i: u16,
}

impl View for Registers {
    type V = Seq<u8>;

    closed spec fn view(&self) -> Seq<u8> {
        self.registers@
    }
}

impl Registers {
    pub open spec fn wf(&self) -> bool {
        self@.len() == 16
    }

    /// Fresh register file: every general register zero, index register zero.
    pub fn new() -> (r: Registers)
        ensures
            r.wf(),
            r.i == 0,
            forall|n: int| 0 <= n < 16 ==> r@[n] == 0u8,
    {
        Registers { registers: vec![0u8; 16], i: 0 }
    }

    /// The value held by `register`.
    pub fn read(&self, register: DataRegister) -> (r: u8)
        requires
            self.wf(),
        ensures
            r == self@[register.spec_num() as int],
    {
        self.registers[register.num()]
    }

    /// Set the index register.
    pub fn set_i(&mut self, value: u16)
        ensures
            final(self)@ == old(self)@,
            final(self).i == value,
    {
        self.i = value;
    }

    /// Store `value` into `register`.
    pub fn write(&mut self, register: DataRegister, value: u8)
        requires
            old(self).wf(),
        ensures
            final(self).wf(),
            final(self)@ == old(self)@.update(register.spec_num() as int, value),
            final(self).i == old(self).i,
    {
        let n = register.num();
        self.registers[n] = value;
    }
}

} // verus!
