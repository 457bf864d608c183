//! The list itself.

use vstd::prelude::*;
use crate::model::{appended, back, front, popped, pushed};
use crate::node::{items, Link, Node};

verus! {

/// The head link together with the count of the nodes behind it.
///
/// A list holds the two as one value and only ever replaces them together,
/// so that the count is right whenever the list can be observed.
struct Chain<T> {
    head: Link<T>,
    size: usize,
}

/// A singly-linked list that owns its items.
pub struct List<T> {
    chain: Chain<T>,
}

impl<T> View for List<T> {
    type V = Seq<T>;

    /// The items of the list, front first.
    closed spec fn view(&self) -> Seq<T> {
        items(self.chain.head)
    }
}

impl<T> List<T> {
    /// The stored count equals the number of nodes behind the head link.
    #[verifier::type_invariant]
    spec fn counted(&self) -> bool {
        self.chain.size == items(self.chain.head).len()
    }

    /// An empty list.
    pub fn new() -> (list: Self)
        ensures
            list@ == Seq::<T>::empty(),
    {
        List { chain: Chain { head: None, size: 0 } }
    }

    /// The number of items.
    pub fn len(&self) -> (n: usize)
        ensures
            n == self@.len(),
    {
        proof {
            use_type_invariant(self);
        }
        self.chain.size
    }

    /// Inserts `item` at the front; what was the front item comes second.
    pub fn push(&mut self, item: T)
        requires
            old(self)@.len() < usize::MAX,
        ensures
            final(self)@ == pushed(old(self)@, item),
            final(self)@.len() == old(self)@.len() + 1,
    {
        proof {
            use_type_invariant(&*self);
        }
        let mut node = Box::new(Node { item, next: None });
        let mut chain = Chain { head: None, size: 0 };
        core::mem::swap(&mut chain, &mut self.chain);
        if let Some(head) = chain.head.take() {
            node.next = Some(head);
        }
        chain.head = Some(node);
        chain.size += 1;
        self.chain = chain;
    }

    /// Removes the front item and returns it, or returns `None` and changes
    /// nothing if the list is empty.
    pub fn pop(&mut self) -> (item: Option<T>)
        ensures
            item == front(old(self)@),
            final(self)@ == popped(old(self)@),
            item is Some ==> final(self)@.len() == old(self)@.len() - 1,
            item is None ==> final(self)@.len() == 0,
    {
        proof {
            use_type_invariant(&*self);
        }
        let mut chain = Chain { head: None, size: 0 };
        core::mem::swap(&mut chain, &mut self.chain);
        let item = if let Some(head) = chain.head.take() {
            chain.head = head.next;
            chain.size -= 1;
            Some(head.item)
        } else {
            None
        };
        self.chain = chain;
        item
    }

    /// The front item, left where it is, or `None` if the list is empty.
    pub fn peek(&self) -> (item: Option<&T>)
        ensures
            match item {
                Some(found) => front(self@) == Some(*found),
                None => front(self@) is None,
            },
    {
        match &self.chain.head {
            Some(node) => Some(&node.item),
            None => None,
        }
    }

    /// The back item, left where it is, or `None` if the list is empty.
    ///
    /// There is no link to the back: this walks the whole chain.
    pub fn last(&self) -> (item: Option<&T>)
        ensures
            match item {
                Some(found) => back(self@) == Some(*found),
                None => back(self@) is None,
            },
    {
        match &self.chain.head {
            None => None,
            Some(head) => {
                let mut node: &Box<Node<T>> = head;
                while node.next.is_some()
                    invariant
                        self@.len() > 0,
                        items(Some(*node)).len() > 0,
                        items(Some(*node)).last() == self@.last(),
                    decreases items(Some(*node)).len(),
                {
                    node = node.next.as_ref().unwrap();
                }
                // Nothing is behind `node`, so its item is the last one.
                assert(items(node.next) == Seq::<T>::empty());
                Some(&node.item)
            },
        }
    }

    /// Inserts `item` at the back.
    ///
    /// There is no link to the back: this walks the whole chain.
    pub fn append(&mut self, item: T)
        requires
            old(self)@.len() < usize::MAX,
        ensures
            final(self)@ == appended(old(self)@, item),
            final(self)@.len() == old(self)@.len() + 1,
    {
        proof {
            use_type_invariant(&*self);
        }
        let node = Box::new(Node { item, next: None });
        let mut chain = Chain { head: None, size: 0 };
        core::mem::swap(&mut chain, &mut self.chain);
        // `tail` moves from link to link until it is at the empty one at the
        // end. `walked` holds the items of the nodes that it has passed:
        // whatever is stored through `tail`, the chain will hold `walked`
        // and then that.
        let ghost before = items(chain.head);
        let ghost mut walked: Seq<T> = Seq::empty();
        let mut tail: &mut Link<T> = &mut chain.head;
        while tail.is_some()
            invariant
                walked + items(*tail) == before,
                items(after_borrow(chain.head)) == walked + items(*final(tail)),
            decreases items(*tail).len(),
        {
            let ghost reached = *final(tail);
            let ghost passed = tail->0.item;
            tail = &mut tail.as_mut().unwrap().next;
            proof {
                // The link that `tail` has left keeps its item and will
                // have behind it whatever `tail` holds in the end.
                assert(items(reached) == seq![passed] + items(*final(tail)));
                walked = walked.push(passed);
            }
        }
        *tail = Some(node);
        chain.size += 1;
        self.chain = chain;
    }
}

impl<T> Drop for List<T> {
    /// Releases the nodes one after the other, front to back, in a loop.
    ///
    /// Left to release one another, the nodes would nest one call for each
    /// of them, which a long list cannot afford.
    fn drop(&mut self)
        ensures
            final(self)@ == Seq::<T>::empty(),
        opens_invariants none
        no_unwind
    {
        let mut chain = Chain { head: None, size: 0 };
        core::mem::swap(&mut chain, &mut self.chain);
        let mut link = chain.head;
        loop
            decreases items(link).len(),
        {
            match link {
                Some(node) => {
                    link = node.next;
                },
                None => {
                    break;
                },
            }
        }
    }
}

} // verus!
