//! The nodes that a list is built from.

use vstd::prelude::*;

verus! {

/// An owning link to the next node, or `None` where the chain ends.
pub(crate) type Link<T> = Option<Box<Node<T>>>;

/// One item and the link to the nodes behind it. A node belongs to the
/// link that points to it and to nothing else.
pub(crate) struct Node<T> {
    pub(crate) item: T,
    pub(crate) next: Link<T>,
}

/// The items of the nodes behind `link`, nearest first.
pub(crate) open spec fn items<T>(link: Link<T>) -> Seq<T>
    decreases link,
{
    match link {
        None => Seq::empty(),
        Some(node) => seq![node.item] + items(node.next),
    }
}

} // verus!
