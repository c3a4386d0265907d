//! A bounded last-in, first-out list.
use vstd::prelude::*;

verus! {

/// A last-in, first-out list that holds at most `S` items.
pub struct Stack<T, const S: usize> {
    items: Vec<T>,
}

/// A consuming walk over a [`Stack`], from the item pushed last to the one pushed first.
pub struct IntoIter<T, const S: usize> {
    items: Vec<T>,
}

impl<T> Stack<T, 64> {
    /// An empty stack with room for 64 items.
    pub fn new() -> (s: Self)
        ensures
            s@ == Seq::<T>::empty(),
    {
        Stack { items: Vec::new() }
    }
}

impl<T, const S: usize> Stack<T, S> {
    #[verifier::type_invariant]
    spec fn bounded(self) -> bool {
        self.items@.len() <= S
    }

    /// The items, oldest first.
    pub closed spec fn view(&self) -> Seq<T> {
        self.items@
    }

    /// The most items the stack can hold.
    pub open spec fn capacity() -> nat {
        S as nat
    }

    /// An empty stack with room for `S` items.
    pub fn with_size() -> (s: Self)
        ensures
            s@ == Seq::<T>::empty(),
    {
        Stack { items: Vec::new() }
    }

    /// Whether the stack holds nothing.
    #[must_use]
    pub fn is_empty(&self) -> (b: bool)
        ensures
            b == (self@.len() == 0),
    {
        self.items.len() == 0
    }

    /// Whether no room is left.
    #[must_use]
    pub fn is_full(&self) -> (b: bool)
        ensures
            b == (self@.len() == S),
    {
        self.items.len() == S
    }

    /// How many items the stack holds.
    pub fn len(&self) -> (n: usize)
        ensures
            n == self@.len(),
            n <= S,
    {
        proof {
            use_type_invariant(self);
        }
        self.items.len()
    }

    /// Puts `item` on top. A full stack is left as it is and hands the item back.
    pub fn push(&mut self, item: T) -> (rejected: Option<T>)
        ensures
            old(self)@.len() < S ==> rejected.is_none() && final(self)@ == old(self)@.push(item),
            old(self)@.len() >= S ==> rejected == Some(item) && final(self)@ == old(self)@,
    {
        proof {
            use_type_invariant(&*self);
        }
        if self.items.len() == S {
            return Some(item);
        }
        let mut held = Stack { items: Vec::new() };
        core::mem::swap(self, &mut held);
        let mut items = held.items;
        items.push(item);
        *self = Stack { items };
        None
    }

    /// Takes the top item off, or gives `None` when the stack is empty.
    #[must_use]
    pub fn pop(&mut self) -> (top: Option<T>)
        ensures
            old(self)@.len() == 0 ==> top.is_none() && final(self)@ == old(self)@,
            old(self)@.len() > 0 ==> top == Some(old(self)@.last()) && final(self)@ == old(
                self,
            )@.drop_last(),
    {
        let mut held = Stack { items: Vec::new() };
        core::mem::swap(self, &mut held);
        proof {
            use_type_invariant(&held);
        }
        let mut items = held.items;
        let top = items.pop();
        *self = Stack { items };
        top
    }

    /// The items as a slice, oldest first.
    pub fn as_slice(&self) -> (s: &[T])
        ensures
            s@ == self@,
    {
        self.items.as_slice()
    }

    /// Turns the stack into a walk that starts at the top.
    pub fn into_iter(self) -> (it: IntoIter<T, S>)
        ensures
            it@ == self@,
    {
        IntoIter { items: self.items }
    }
}

impl<T, const S: usize> IntoIter<T, S> {
    /// The items still to come, oldest first; the walk hands out the last one next.
    pub closed spec fn view(&self) -> Seq<T> {
        self.items@
    }

    /// The next item from the top, or `None` when all were handed out.
    pub fn next(&mut self) -> (item: Option<T>)
        ensures
            old(self)@.len() == 0 ==> item.is_none() && final(self)@ == old(self)@,
            old(self)@.len() > 0 ==> item == Some(old(self)@.last()) && final(self)@ == old(
                self,
            )@.drop_last(),
    {
        self.items.pop()
    }

    /// How many items are still to come.
    pub fn len(&self) -> (n: usize)
        ensures
            n == self@.len(),
    {
        self.items.len()
    }
}

} // verus!
