//! Typed arenas and the handles that index them.

use vstd::prelude::*;
use std::marker::PhantomData;
use crate::span::Span;

verus! {

/// The position of a `T` in an `Arena<T>`.
#[derive(Debug)]
pub struct Handle<T> {
    index: u32,
    marker: PhantomData<T>,
}

impl<T> Handle<T> {
    /// The position this handle stands for.
    pub closed spec fn spec_index(&self) -> nat {
        self.index as nat
    }

    /// The handle for position `index`.
    pub fn from_index(index: u32) -> (r: Self)
        ensures
            r.spec_index() == index,
    {
        Handle { index, marker: PhantomData }
    }

    /// The position this handle stands for.
    pub fn index(&self) -> (r: usize)
        ensures
            r == self.spec_index(),
    {
        self.index as usize
    }
}

impl<T> Clone for Handle<T> {
    fn clone(&self) -> (r: Self)
        ensures
            r == *self,
    {
        Handle { index: self.index, marker: PhantomData }
    }
}

impl<T> Copy for Handle<T> {
}

/// A list of `T` with the span each item came from; items are added, never
/// removed, and referred to by `Handle<T>`.
#[derive(Debug)]
pub struct Arena<T> {
    data: std::vec::Vec<T>,
    span_info: std::vec::Vec<Span>,
}

impl<T> View for Arena<T> {
    type V = Seq<T>;

    closed spec fn view(&self) -> Seq<T> {
        self.data@
    }
}

impl<T> Arena<T> {
    /// The span recorded for each item, in order.
    pub closed spec fn spans(&self) -> Seq<Span> {
        self.span_info@
    }

    /// Every item has exactly one span.
    pub closed spec fn wf(&self) -> bool {
        self.data@.len() == self.span_info@.len()
    }

    /// An empty arena.
    pub fn new() -> (r: Self)
        ensures
            r.wf(),
            r@ == Seq::<T>::empty(),
    {
        Arena { data: std::vec::Vec::new(), span_info: std::vec::Vec::new() }
    }

    /// The number of items.
    pub fn len(&self) -> (r: usize)
        ensures
            r == self@.len(),
    {
        self.data.len()
    }

    /// Adds `value`, which came from `span`, and returns its handle: the
    /// position it took, after every item already there.
    pub fn append(&mut self, value: T, span: Span) -> (h: Handle<T>)
        requires
            old(self).wf(),
            old(self)@.len() < u32::MAX,
        ensures
            final(self).wf(),
            final(self)@ == old(self)@.push(value),
            final(self).spans() == old(self).spans().push(span),
            h.spec_index() == old(self)@.len(),
    {
        let index = self.data.len() as u32;
        self.data.push(value);
        self.span_info.push(span);
        Handle::from_index(index)
    }

    /// The item that `handle` refers to.
    pub fn get(&self, handle: Handle<T>) -> (r: &T)
        requires
            handle.spec_index() < self@.len(),
        ensures
            *r == self@[handle.spec_index() as int],
    {
        &self.data[handle.index()]
    }

    /// The span recorded for the item that `handle` refers to.
    pub fn get_span(&self, handle: Handle<T>) -> (r: Span)
        requires
            self.wf(),
            handle.spec_index() < self@.len(),
        ensures
            r == self.spans()[handle.spec_index() as int],
    {
        self.span_info[handle.index()]
    }
}

/// Appending to an arena leaves every item already there at its position, and
/// the handle of the new item reads back the appended value.
pub proof fn lemma_append_keeps_handles<T>(items: Seq<T>, value: T, h: nat)
    ensures
        items.push(value)[items.len() as int] == value,
        h < items.len() ==> items.push(value)[h as int] == items[h as int],
{
}

impl<T> Default for Arena<T> {
    fn default() -> (r: Self)
        ensures
            r.wf(),
            r@ == Seq::<T>::empty(),
    {
        Arena::new()
    }
}

} // verus!
