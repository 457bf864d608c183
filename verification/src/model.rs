//! The list as a mathematical sequence, front first, and what each
//! operation does to it.

use vstd::prelude::*;

verus! {

/// What a list holds after `push(item)`: `item`, then what it held before.
pub open spec fn pushed<T>(s: Seq<T>, item: T) -> Seq<T> {
    seq![item] + s
}

/// What a list holds after `append(item)`: what it held before, then `item`.
pub open spec fn appended<T>(s: Seq<T>, item: T) -> Seq<T> {
    s.push(item)
}

/// The front item, if there is one: what `peek` shows and `pop` returns.
pub open spec fn front<T>(s: Seq<T>) -> Option<T> {
    if s.len() == 0 {
        None
    } else {
        Some(s.first())
    }
}

/// The back item, if there is one: what `last` shows.
pub open spec fn back<T>(s: Seq<T>) -> Option<T> {
    if s.len() == 0 {
        None
    } else {
        Some(s.last())
    }
}

/// What a list holds after `pop`: all but the front item. An empty list
/// stays empty.
pub open spec fn popped<T>(s: Seq<T>) -> Seq<T> {
    if s.len() == 0 {
        s
    } else {
        s.drop_first()
    }
}

/// What a list holds after a `push` of each of `items`, `items[0]` first.
pub open spec fn pushed_all<T>(s: Seq<T>, items: Seq<T>) -> Seq<T>
    decreases items.len(),
{
    if items.len() == 0 {
        s
    } else {
        pushed(pushed_all(s, items.drop_last()), items.last())
    }
}

/// What a list holds after an `append` of each of `items`, `items[0]` first.
pub open spec fn appended_all<T>(s: Seq<T>, items: Seq<T>) -> Seq<T>
    decreases items.len(),
{
    if items.len() == 0 {
        s
    } else {
        appended(appended_all(s, items.drop_last()), items.last())
    }
}

/// What `n` calls of `pop` return, one after the other.
pub open spec fn pops<T>(s: Seq<T>, n: nat) -> Seq<Option<T>>
    decreases n,
{
    if n == 0 {
        Seq::empty()
    } else {
        seq![front(s)] + pops(popped(s), (n - 1) as nat)
    }
}

/// What a list holds after `n` calls of `pop`.
pub open spec fn popped_times<T>(s: Seq<T>, n: nat) -> Seq<T>
    decreases n,
{
    if n == 0 {
        s
    } else {
        popped_times(popped(s), (n - 1) as nat)
    }
}

/// Every item of `s`, as a `pop` that finds it returns it.
pub open spec fn present<T>(s: Seq<T>) -> Seq<Option<T>> {
    Seq::new(s.len(), |i: int| Some(s[i]))
}

/// One call that changes a list.
pub enum Op<T> {
    /// `push` of the item.
    Push(T),
    /// `append` of the item.
    Append(T),
    /// `pop`.
    Pop,
}

/// What a list holds after `op`.
pub open spec fn applied<T>(s: Seq<T>, op: Op<T>) -> Seq<T> {
    match op {
        Op::Push(item) => pushed(s, item),
        Op::Append(item) => appended(s, item),
        Op::Pop => popped(s),
    }
}

/// What a list holds after each of `ops` in turn, `ops[0]` first.
pub open spec fn applied_all<T>(s: Seq<T>, ops: Seq<Op<T>>) -> Seq<T>
    decreases ops.len(),
{
    if ops.len() == 0 {
        s
    } else {
        applied(applied_all(s, ops.drop_last()), ops.last())
    }
}

/// How many of `ops` are a `push` or an `append`.
pub open spec fn insertions<T>(ops: Seq<Op<T>>) -> nat
    decreases ops.len(),
{
    if ops.len() == 0 {
        0
    } else if ops.last() is Pop {
        insertions(ops.drop_last())
    } else {
        insertions(ops.drop_last()) + 1
    }
}

/// How many of `ops` are a `pop`.
pub open spec fn removals<T>(ops: Seq<Op<T>>) -> nat
    decreases ops.len(),
{
    if ops.len() == 0 {
        0
    } else if ops.last() is Pop {
        removals(ops.drop_last()) + 1
    } else {
        removals(ops.drop_last())
    }
}

/// Every `pop` among `ops`, made in turn on a list that holds `s`, finds an
/// item.
pub open spec fn every_pop_finds<T>(s: Seq<T>, ops: Seq<Op<T>>) -> bool {
    forall|i: int|
        0 <= i < ops.len() && ops[i] is Pop ==> #[trigger] applied_all(s, ops.take(i)).len() > 0
}

} // verus!
