//! The local variable table of a frame.

use vstd::prelude::*;
use crate::value::Slot;

verus! {

/// The local variables of a frame, indexed from 0.
pub struct Local {
    inner: Vec<Slot>,
}

impl View for Local {
    type V = Seq<Slot>;

    closed spec fn view(&self) -> Seq<Slot> {
        self.inner@
    }
}

impl Local {
    /// A table of `size` variables, none written yet.
    pub fn new(size: usize) -> (r: Local)
        ensures
            r@ == Seq::new(size as nat, |i: int| Slot::Empty),
    {
        let mut inner: Vec<Slot> = Vec::with_capacity(size);
        let mut i: usize = 0;
        while i < size
            invariant
                i <= size,
                inner@ == Seq::new(i as nat, |k: int| Slot::Empty),
            decreases size - i,
        {
            inner.push(Slot::Empty);
            i += 1;
            assert(inner@ =~= Seq::new(i as nat, |k: int| Slot::Empty));
        }
        Local { inner }
    }

    pub fn len(&self) -> (r: usize)
        ensures
            r == self@.len(),
    {
        self.inner.len()
    }

    /// The variable at `pos`, if the table has one.
    pub fn get(&self, pos: usize) -> (r: Option<Slot>)
        ensures
            r == (if pos < self@.len() {
                Some(self@[pos as int])
            } else {
                None
            }),
    {
        if pos < self.inner.len() {
            Some(self.inner[pos])
        } else {
            None
        }
    }

    pub fn set(&mut self, pos: usize, v: Slot)
        requires
            pos < old(self)@.len(),
        ensures
            final(self)@ == old(self)@.update(pos as int, v),
    {
        self.inner.set(pos, v);
    }
}

} // verus!
