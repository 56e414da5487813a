//! The auxiliary witness buffer behind the witness host calls: values are
//! inserted at the front and popped from the back, so values inserted before
//! the first pop come out in insertion order.
use vstd::prelude::*;

verus! {

pub struct WitnessContext {
    pub buf: Vec<u64>,
}

impl Default for WitnessContext {
    fn default() -> (r: Self)
        ensures
            r.buf@.len() == 0,
    {
        WitnessContext { buf: Vec::new() }
    }
}

impl WitnessContext {
    pub fn new() -> (r: Self)
        ensures
            r.buf@.len() == 0,
    {
        WitnessContext { buf: Vec::new() }
    }

    /// Puts `new` at the front of the buffer.
    pub fn witness_insert(&mut self, new: u64)
        ensures
            final(self).buf@ == seq![new] + old(self).buf@,
    {
        self.buf.insert(0, new);
        assert(self.buf@ =~= seq![new] + old(self).buf@);
    }

    /// Takes the value at the back of a non-empty buffer.
    pub fn witness_pop(&mut self) -> (r: u64)
        requires
            old(self).buf@.len() > 0,
        ensures
            r == old(self).buf@.last(),
            final(self).buf@ == old(self).buf@.drop_last(),
    {
        match self.buf.pop() {
            Some(v) => v,
            None => 0,
        }
    }
}

} // verus!
