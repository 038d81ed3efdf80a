//! The operand stack of a frame.

use vstd::prelude::*;
use crate::value::Slot;

verus! {

/// The operand stack; its view lists the slots from the bottom to the top.
pub struct Stack {
    inner: Vec<Slot>,
}

impl View for Stack {
    type V = Seq<Slot>;

    closed spec fn view(&self) -> Seq<Slot> {
        self.inner@
    }
}

/// The slot `depth` places below the top (`0` is the top).
pub open spec fn peek_at(s: Seq<Slot>, depth: int) -> Slot {
    s[s.len() - 1 - depth]
}

/// `s` with its `n` topmost slots removed.
pub open spec fn drop_top(s: Seq<Slot>, n: int) -> Seq<Slot> {
    s.subrange(0, s.len() - n)
}

impl Stack {
    /// An empty stack. The capacity hint does not bound the stack.
    pub fn new(capacity: usize) -> (r: Stack)
        ensures
            r@ == Seq::<Slot>::empty(),
    {
        Stack { inner: Vec::with_capacity(capacity) }
    }

    pub fn len(&self) -> (r: usize)
        ensures
            r == self@.len(),
    {
        self.inner.len()
    }

    /// The slot `depth` places below the top, if there is one.
    pub fn peek(&self, depth: usize) -> (r: Option<Slot>)
        ensures
            r == (if depth < self@.len() {
                Some(peek_at(self@, depth as int))
            } else {
                None
            }),
    {
        let n = self.inner.len();
        if depth < n {
            Some(self.inner[n - 1 - depth])
        } else {
            None
        }
    }

    pub fn push(&mut self, v: Slot)
        ensures
            final(self)@ == old(self)@.push(v),
    {
        self.inner.push(v);
    }

    /// Removes the top slot and returns it; `None` on an empty stack.
    pub fn pop(&mut self) -> (r: Option<Slot>)
        ensures
            old(self)@.len() == 0 ==> r is None && final(self)@ == old(self)@,
            old(self)@.len() > 0 ==> r == Some(peek_at(old(self)@, 0)) && final(self)@ == drop_top(
                old(self)@,
                1,
            ),
    {
        let r = self.inner.pop();
        proof {
            if old(self)@.len() > 0 {
                assert(self.inner@ =~= drop_top(old(self)@, 1));
            }
        }
        r
    }

    /// Removes every slot.
    pub fn clear(&mut self)
        ensures
            final(self)@ == Seq::<Slot>::empty(),
    {
        self.inner.clear();
    }
}

} // verus!
