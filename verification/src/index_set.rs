//! An insertion-ordered set: each item is kept once, in the order in which it
//! was first inserted, and two items count as the same when `==` says so.
//!
//! It takes the place of an insertion-ordered hash set keyed by `Hash` and
//! `Eq`. Here the items are kept in a `Vec` and found by a linear search with
//! `==`, so that the set's invariant and its insertion rule are stated over
//! `==` alone and proved; lookups cost linear rather than constant time.

use vstd::prelude::*;
use vstd::std_specs::cmp::PartialEqSpec;

verus! {

/// No item of `s` is `==` to an item that comes after it.
pub open spec fn no_equal_pair<T: PartialEq>(s: Seq<T>) -> bool {
    forall|i: int, j: int| 0 <= i < j < s.len() ==> !s[i].eq_spec(&s[j])
}

/// Some item of `s` is `==` to `value`.
pub open spec fn has_equal<T: PartialEq>(s: Seq<T>, value: &T) -> bool {
    exists|i: int| 0 <= i < s.len() && #[trigger] s[i].eq_spec(value)
}

/// `s` after inserting `value`: unchanged when an item `==` to `value` is
/// there, else `value` appended.
pub open spec fn inserted<T: PartialEq>(s: Seq<T>, value: T) -> Seq<T> {
    if has_equal(s, &value) {
        s
    } else {
        s.push(value)
    }
}

/// An insertion-ordered set of `T`.
#[derive(Debug)]
pub struct FastIndexSet<T> {
    items: std::vec::Vec<T>,
}

impl<T> View for FastIndexSet<T> {
    type V = Seq<T>;

    closed spec fn view(&self) -> Seq<T> {
        self.items@
    }
}

impl<T: PartialEq> FastIndexSet<T> {
    /// No two items of the set are `==`.
    pub open spec fn wf(&self) -> bool {
        no_equal_pair(self@)
    }

    /// The empty set.
    pub fn new() -> (r: Self)
        ensures
            r.wf(),
            r@ == Seq::<T>::empty(),
    {
        FastIndexSet { items: std::vec::Vec::new() }
    }

    /// The number of items.
    pub fn len(&self) -> (r: usize)
        ensures
            r == self@.len(),
    {
        self.items.len()
    }

    /// The item at position `index`, in insertion order.
    pub fn get_index(&self, index: usize) -> (r: Option<&T>)
        ensures
            index < self@.len() ==> r == Some(&self@[index as int]),
            index >= self@.len() ==> r is None,
    {
        if index < self.items.len() {
            Some(&self.items[index])
        } else {
            None
        }
    }

    /// The position of the item that `value` is `==` to, if there is one.
    pub fn get_index_of(&self, value: &T) -> (r: Option<usize>)
        requires
            T::obeys_eq_spec(),
        ensures
            match r {
                Some(i) => i < self@.len() && self@[i as int].eq_spec(value)
                    && forall|j: int| 0 <= j < i ==> !(#[trigger] self@[j]).eq_spec(value),
                None => !has_equal(self@, value),
            },
    {
        let mut i: usize = 0;
        while i < self.items.len()
            invariant
                T::obeys_eq_spec(),
                i <= self.items@.len(),
                forall|j: int| 0 <= j < i ==> !(#[trigger] self.items@[j]).eq_spec(value),
            decreases self.items@.len() - i,
        {
            if self.items[i] == *value {
                return Some(i);
            }
            i = i + 1;
        }
        None
    }

    /// Whether some item is `==` to `value`.
    pub fn contains(&self, value: &T) -> (r: bool)
        requires
            T::obeys_eq_spec(),
        ensures
            r == has_equal(self@, value),
    {
        self.get_index_of(value).is_some()
    }

    /// Adds `value` at the end unless an item `==` to it is there already, in
    /// which case the set is left as it was. Returns whether `value` was added.
    pub fn insert(&mut self, value: T) -> (r: bool)
        requires
            T::obeys_eq_spec(),
            old(self).wf(),
        ensures
            final(self).wf(),
            r == !has_equal(old(self)@, &value),
            final(self)@ == inserted(old(self)@, value),
    {
        match self.get_index_of(&value) {
            Some(_) => false,
            None => {
                self.items.push(value);
                true
            },
        }
    }
}

impl<T: PartialEq> Default for FastIndexSet<T> {
    fn default() -> (r: Self)
        ensures
            r.wf(),
            r@ == Seq::<T>::empty(),
    {
        FastIndexSet::new()
    }
}

} // verus!
