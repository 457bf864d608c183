//! What holds of the operations taken together.

use vstd::prelude::*;
use crate::model::{
    applied_all, appended_all, back, every_pop_finds, front, insertions, popped, present,
    popped_times, pops, pushed, pushed_all, removals, Op,
};

verus! {

/// Items pushed one by one end up in front of what the list held, the
/// last one pushed first.
pub proof fn pushes_stack_up<T>(s: Seq<T>, items: Seq<T>)
    ensures
        pushed_all(s, items) == items.reverse() + s,
    decreases items.len(),
{
    if items.len() > 0 {
        pushes_stack_up(s, items.drop_last());
    }
}

/// Items appended one by one end up behind what the list held, in the
/// order in which they were appended.
pub proof fn appends_queue_up<T>(s: Seq<T>, items: Seq<T>)
    ensures
        appended_all(s, items) == s + items,
    decreases items.len(),
{
    if items.len() > 0 {
        appends_queue_up(s, items.drop_last());
    }
}

/// Calls of `pop`, like calls of `next` on the consumed list, return the
/// items in the order in which the list holds them, and after the last one
/// `None` every time. What they have not reached stays in the list.
pub proof fn pops_go_front_to_back<T>(s: Seq<T>, n: nat)
    ensures
        pops(s, n).len() == n,
        forall|i: int| 0 <= i < n && i < s.len() ==> pops(s, n)[i] == Some(s[i]),
        forall|i: int| 0 <= i < n && i >= s.len() ==> pops(s, n)[i] is None,
        n <= s.len() ==> popped_times(s, n) == s.skip(n as int),
        n >= s.len() ==> popped_times(s, n) == Seq::<T>::empty(),
    decreases n,
{
    if n > 0 {
        pops_go_front_to_back(popped(s), (n - 1) as nat);
    }
}

/// Last in, first out: after any number of calls of `push`, as many calls
/// of `pop` return the pushed items, the last one pushed first, and leave
/// the list as it was before.
pub proof fn lifo<T>(s: Seq<T>, items: Seq<T>)
    ensures
        pops(pushed_all(s, items), items.len()) == present(items.reverse()),
        popped_times(pushed_all(s, items), items.len()) == s,
{
    pushes_stack_up(s, items);
    pops_go_front_to_back(pushed_all(s, items), items.len());
}

/// First in, first out: after any number of calls of `append`, calls of
/// `pop` return what the list held before and then the appended items,
/// the first one appended first. On a list that was empty they return the
/// appended items alone.
pub proof fn fifo<T>(s: Seq<T>, items: Seq<T>)
    ensures
        pops(appended_all(s, items), s.len() + items.len()) == present(s + items),
        popped_times(appended_all(s, items), s.len() + items.len()) == Seq::<T>::empty(),
        pops(appended_all(Seq::empty(), items), items.len()) == present(items),
{
    appends_queue_up(s, items);
    pops_go_front_to_back(appended_all(s, items), s.len() + items.len());
    appends_queue_up(Seq::empty(), items);
    pops_go_front_to_back(appended_all(Seq::empty(), items), items.len());
}

/// After `k` calls of `push` and then `j` calls of `pop`, `j` no more than
/// `k`, `len` is `k - j` more than it was: on a new list, `k - j`.
pub proof fn len_after_pushes_and_pops<T>(s: Seq<T>, items: Seq<T>, j: nat)
    requires
        j <= items.len(),
    ensures
        popped_times(pushed_all(s, items), j).len() == s.len() + items.len() - j,
        popped_times(pushed_all(Seq::empty(), items), j).len() == items.len() - j,
{
    pushes_stack_up(Seq::empty(), items);
    pops_go_front_to_back(pushed_all(Seq::empty(), items), j);
    pushes_stack_up(s, items);
    pops_go_front_to_back(pushed_all(s, items), j);
}

/// After calls of `push`, `append` and `pop` in any order, in which every
/// `pop` finds an item, `len` has grown by the number of calls of `push`
/// and `append` less the number of calls of `pop`.
pub proof fn len_after_ops<T>(s: Seq<T>, ops: Seq<Op<T>>)
    requires
        every_pop_finds(s, ops),
    ensures
        applied_all(s, ops).len() == s.len() + insertions(ops) - removals(ops),
    decreases ops.len(),
{
    if ops.len() > 0 {
        let before = ops.drop_last();
        // What holds of every `pop` among `ops` holds of those among `before`.
        assert(every_pop_finds(s, before)) by {
            assert forall|i: int| 0 <= i < before.len() implies before.take(i) == ops.take(i) by {}
        }
        len_after_ops(s, before);
        // If the last of `ops` is a `pop`, it finds an item.
        assert(ops.take(ops.len() - 1) == before);
    }
}

/// `peek` shows nothing on an empty list, and after `push(item)` it shows
/// `item`.
pub proof fn front_after_push<T>(s: Seq<T>, item: T)
    ensures
        front(Seq::<T>::empty()) is None,
        front(pushed(s, item)) == Some(item),
{
}

/// `last` shows nothing on an empty list. After `push(item)` on an empty
/// list it shows `item`, and a `push` on any other list leaves what it
/// shows as it is.
pub proof fn back_after_push<T>(s: Seq<T>, item: T)
    ensures
        back(Seq::<T>::empty()) is None,
        s.len() == 0 ==> back(pushed(s, item)) == Some(item),
        s.len() > 0 ==> back(pushed(s, item)) == back(s),
{
}

/// After calls of `push` on an empty list, `last` shows the item that was
/// pushed first.
pub proof fn back_is_first_pushed<T>(items: Seq<T>)
    requires
        items.len() > 0,
    ensures
        back(pushed_all(Seq::empty(), items)) == Some(items[0]),
{
    pushes_stack_up(Seq::empty(), items);
}

} // verus!
