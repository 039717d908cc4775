//! A generic last-in-first-out stack backed by a vector.

use vstd::prelude::*;

verus! {

/// A generic stack. Its view is the sequence of items from bottom to top.
#[derive(Debug, Clone)]
pub struct Stack<T> {
    items: Vec<T>,
}

impl<T> View for Stack<T> {
    type V = Seq<T>;

    closed spec fn view(&self) -> Seq<T> {
        self.items@
    }
}

impl<T> Default for Stack<T> {
    /// Returns a new empty stack.
    fn default() -> (s: Stack<T>)
        ensures
            s@ == Seq::<T>::empty(),
    {
        Stack { items: Vec::new() }
    }
}

impl<T> Stack<T> {
    /// Creates a new empty stack.
    pub fn new() -> (s: Stack<T>)
        ensures
            s@ == Seq::<T>::empty(),
    {
        Stack { items: Vec::new() }
    }

    /// Creates a new empty stack with at least the given capacity reserved.
    pub fn with_capacity(capacity: usize) -> (s: Stack<T>)
        ensures
            s@ == Seq::<T>::empty(),
    {
        Stack { items: Vec::with_capacity(capacity) }
    }

    /// Pushes an item onto the top of the stack.
    pub fn push(&mut self, item: T)
        ensures
            final(self)@ == old(self)@.push(item),
    {
        self.items.push(item);
    }

    /// Pushes every item of `items` onto the stack, first element first, so
    /// the last element of `items` ends up on top.
    pub fn push_many(&mut self, items: Vec<T>)
        ensures
            final(self)@ == old(self)@ + items@,
    {
        let mut rest = items;
        let ghost complete = items@;
        while rest.len() > 0
            invariant
                self@ + rest@ == old(self)@ + complete,
            decreases rest.len(),
        {
            let x = rest.remove(0);
            self.items.push(x);
        }
        proof {
            assert(final(self)@ =~= old(self)@ + complete);
        }
    }

    /// Pops the top item off the stack, or `None` if the stack is empty.
    pub fn pop(&mut self) -> (top: Option<T>)
        ensures
            match top {
                Some(item) => old(self)@.len() > 0
                    && item == old(self)@.last()
                    && final(self)@ == old(self)@.drop_last(),
                None => old(self)@.len() == 0 && final(self)@ == old(self)@,
            },
    {
        self.items.pop()
    }

    /// Returns the top item without removing it, or `None` if the stack is
    /// empty.
    pub fn peek(&self) -> (top: Option<&T>)
        ensures
            match top {
                Some(item) => self@.len() > 0 && *item == self@.last(),
                None => self@.len() == 0,
            },
    {
        if self.items.len() > 0 {
            Some(&self.items[self.items.len() - 1])
        } else {
            None
        }
    }

    /// Returns the number of items on the stack.
    pub fn len(&self) -> (n: usize)
        ensures
            n == self@.len(),
    {
        self.items.len()
    }

    /// Returns whether the stack holds no items.
    pub fn is_empty(&self) -> (empty: bool)
        ensures
            empty == (self@.len() == 0),
    {
        self.items.is_empty()
    }

    /// Removes every item from the stack.
    pub fn clear(&mut self)
        ensures
            final(self)@ == Seq::<T>::empty(),
    {
        self.items.clear();
    }
}

} // verus!
