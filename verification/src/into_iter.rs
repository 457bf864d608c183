//! Consuming a list from front to back.

use vstd::prelude::*;
use vstd::std_specs::iter::IteratorSpecImpl;
use crate::list::List;
use crate::model::{front, popped};

verus! {

/// A list that is being consumed: each call of `next` removes its front item.
pub struct IntoIter<T> {
    list: List<T>,
}

impl<T> View for IntoIter<T> {
    type V = Seq<T>;

    /// The items not yet handed out, next first.
    closed spec fn view(&self) -> Seq<T> {
        self.list@
    }
}

impl<T> Iterator for IntoIter<T> {
    type Item = T;

    /// Hands out the next item as `pop` would, or `None` once none is left.
    fn next(&mut self) -> (item: Option<T>)
        ensures
            item == front(old(self)@),
            final(self)@ == popped(old(self)@),
    {
        self.list.pop()
    }
}

/// What a loop over the iterator may rely on: `next` hands out the items
/// that are left, in their order, and then `None` for good.
impl<T> IteratorSpecImpl for IntoIter<T> {
    open spec fn obeys_prophetic_iter_laws(&self) -> bool {
        true
    }

    /// The items that `next` will hand out.
    open spec fn remaining(&self) -> Seq<T> {
        self@
    }

    /// The list is finite, so the end is reached.
    open spec fn will_return_none(&self) -> bool {
        true
    }

    /// Each item handed out leaves one fewer.
    open spec fn decrease(&self) -> Option<nat> {
        Some(self@.len())
    }

    open spec fn initial_value_relation(&self, init: &Self) -> bool {
        self@ == init@
    }

    /// The item that the call of `next` after `index` others will hand out.
    open spec fn peek(&self, index: int) -> Option<T> {
        if 0 <= index < self@.len() {
            Some(self@[index])
        } else {
            None
        }
    }
}

impl<T> IntoIterator for List<T> {
    type Item = T;

    type IntoIter = IntoIter<T>;

    /// Turns the list into the sequence of its items, front first.
    fn into_iter(self) -> (iter: IntoIter<T>)
        ensures
            iter@ == self@,
    {
        IntoIter { list: self }
    }
}

} // verus!
