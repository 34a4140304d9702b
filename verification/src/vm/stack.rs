//! The call stack: a fixed-capacity stack of 16-bit return addresses with
//! explicit overflow and underflow signaling. Both conditions are fatal by
//! design; callers stop feeding cycles after either.

use vstd::prelude::*;

verus! {

/// Capacity of the call stack.
pub const SIZE: usize = 12;

/// The call stack. Its view is the sequence of live entries, oldest first.
pub struct Stack {
    stack: Vec<u16>,
}

impl View for Stack {
    type V = Seq<u16>;

    closed spec fn view(&self) -> Seq<u16> {
        self.stack@
    }
}

impl Stack {
    pub open spec fn wf(&self) -> bool {
        self@.len() <= SIZE
    }

    /// Fresh, empty stack.
    pub fn new() -> (r: Stack)
        ensures
            r.wf(),
            r@ == Seq::<u16>::empty(),
    {
        let s = Stack { stack: Vec::new() };
        proof {
            assert(s@ =~= Seq::<u16>::empty());
        }
        s
    }

    /// Push a return address. Fails exactly when the stack already holds
    /// `SIZE` entries; a failed push leaves the stack unchanged.
    pub fn push(&mut self, value: u16) -> (r: Result<(), &'static str>)
        requires
            old(self).wf(),
        ensures
            final(self).wf(),
            r is Ok <==> old(self)@.len() < SIZE,
            r is Ok ==> final(self)@ == old(self)@.push(value),
            r is Err ==> final(self)@ == old(self)@,
            r matches Err(m) ==> m@ == "stack overflow"@,
    {
        if self.stack.len() == SIZE {
            Err("stack overflow")
        } else {
            self.stack.push(value);
            Ok(())
        }
    }

    /// Law: values pop in reverse push order. A pop immediately after a push
    /// yields the pushed value and restores the stack beneath it, whatever
    /// the stack held before.
    pub proof fn lemma_lifo(s: Seq<u16>, value: u16)
        ensures
            s.push(value).last() == value,
            s.push(value).drop_last() == s,
    {
        assert(s.push(value).drop_last() =~= s);
    }

    /// Pop the most recent return address. Fails exactly when the stack is
    /// empty; a failed pop leaves the stack unchanged.
    pub fn pop(&mut self) -> (r: Result<u16, &'static str>)
        requires
            old(self).wf(),
        ensures
            final(self).wf(),
            r is Ok <==> old(self)@.len() > 0,
            r matches Ok(v) ==> v == old(self)@.last() && final(self)@ == old(self)@.drop_last(),
            r is Err ==> final(self)@ == old(self)@,
            r matches Err(m) ==> m@ == "stack empty"@,
    {
        match self.stack.pop() {
            Some(v) => Ok(v),
            None => Err("stack empty"),
        }
    }
}

} // verus!
