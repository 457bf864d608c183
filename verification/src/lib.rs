//! A generic singly-linked list: insertion at the front and at the back,
//! removal from the front, a look at the front and at the back, and
//! consumption from front to back.
//!
//! The list keeps no link to its back, so the operations on the front take
//! constant time and those on the back walk the whole chain.
//!
//! The contract of every operation speaks of the sequence of items that the
//! list holds, front first ([`model`]). What holds of the operations taken
//! together is proved in [`laws`].

pub mod model;
mod node;
pub mod list;
pub mod into_iter;
pub mod laws;

pub use into_iter::IntoIter;
pub use list::List;
