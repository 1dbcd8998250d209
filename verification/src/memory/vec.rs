//! A growable list whose lifetime is tied to the arena of the syntax tree.

use vstd::prelude::*;
use std::marker::PhantomData;
use crate::memory::allocator::Allocator;

verus! {

/// A growable list of `T` that lives no longer than the arena `'alloc`.
#[derive(Debug)]
pub struct Vec<'alloc, T> {
    items: std::vec::Vec<T>,
    arena: PhantomData<&'alloc Allocator>,
}

impl<'alloc, T> View for Vec<'alloc, T> {
    type V = Seq<T>;

    closed spec fn view(&self) -> Seq<T> {
        self.items@
    }
}

impl<'alloc, T> Vec<'alloc, T> {
    /// An empty list tied to the arena `alloc`.
    pub fn new_in(alloc: &'alloc Allocator) -> (r: Self)
        ensures
            r@ == Seq::<T>::empty(),
    {
        Vec { items: std::vec::Vec::new(), arena: PhantomData }
    }

    /// Appends `value` at the end.
    pub fn push(&mut self, value: T)
        ensures
            final(self)@ == old(self)@.push(value),
    {
        self.items.push(value);
    }

    /// The number of items.
    pub fn len(&self) -> (r: usize)
        ensures
            r == self@.len(),
    {
        self.items.len()
    }

    /// The item at `index`.
    pub fn get(&self, index: usize) -> (r: &T)
        requires
            index < self@.len(),
        ensures
            *r == self@[index as int],
    {
        &self.items[index]
    }
}

impl<'alloc, T> Default for Vec<'alloc, T> {
    fn default() -> (r: Self)
        ensures
            r@ == Seq::<T>::empty(),
    {
        Vec { items: std::vec::Vec::new(), arena: PhantomData }
    }
}

} // verus!
