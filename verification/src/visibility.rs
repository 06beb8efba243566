//! Which tasks of a list are shown, and which shown task lies nearest to a
//! given position.

use crate::todo::TodoView;
use vstd::prelude::*;

verus! {

/// A task passes the completion filter when completed tasks are shown or the
/// task is not done.
pub open spec fn is_visible(task: TodoView, show_done: bool) -> bool {
    show_done || !task.done
}

/// The positions of the tasks that pass the filter, in ascending order.
pub open spec fn visible_indices(tasks: Seq<TodoView>, show_done: bool) -> Seq<int>
    decreases tasks.len(),
{
    if tasks.len() == 0 {
        Seq::empty()
    } else {
        let before = visible_indices(tasks.drop_last(), show_done);
        if is_visible(tasks.last(), show_done) {
            before.push(tasks.len() - 1)
        } else {
            before
        }
    }
}

/// Whether `indices` lists, in strictly ascending order, exactly the positions
/// of `tasks` that pass the filter.
pub open spec fn lists_visible(indices: Seq<int>, tasks: Seq<TodoView>, show_done: bool) -> bool {
    &&& forall|k: int|
        0 <= k < indices.len() ==> 0 <= #[trigger] indices[k] < tasks.len() && is_visible(
            tasks[indices[k]],
            show_done,
        )
    &&& forall|a: int, b: int|
        0 <= a < b < indices.len() ==> #[trigger] indices[a] < #[trigger] indices[b]
    &&& forall|i: int|
        0 <= i < tasks.len() && is_visible(#[trigger] tasks[i], show_done) ==> indices.contains(i)
}

/// `visible_indices` lists exactly the positions that pass the filter, each
/// once and in ascending order.
pub proof fn lemma_visible_indices_lists_visible(tasks: Seq<TodoView>, show_done: bool)
    ensures
        lists_visible(visible_indices(tasks, show_done), tasks, show_done),
        visible_indices(tasks, show_done).len() <= tasks.len(),
    decreases tasks.len(),
{
    let all = visible_indices(tasks, show_done);
    if tasks.len() > 0 {
        let shorter = tasks.drop_last();
        let before = visible_indices(shorter, show_done);
        lemma_visible_indices_lists_visible(shorter, show_done);
        assert forall|i: int|
            0 <= i < tasks.len() && is_visible(#[trigger] tasks[i], show_done) implies all.contains(
            i,
        ) by {
            if i < tasks.len() - 1 {
                assert(is_visible(shorter[i], show_done));
                let k = choose|k: int| 0 <= k < before.len() && before[k] == i;
                assert(all[k] == i);
            } else {
                assert(all[all.len() - 1] == i);
            }
        }
    }
}

/// Only one sequence lists the visible positions in ascending order.
pub proof fn lemma_lists_visible_unique(
    indices: Seq<int>,
    tasks: Seq<TodoView>,
    show_done: bool,
)
    requires
        lists_visible(indices, tasks, show_done),
    ensures
        indices == visible_indices(tasks, show_done),
    decreases tasks.len(),
{
    if tasks.len() == 0 {
        if indices.len() > 0 {
            assert(0 <= indices[0] < tasks.len());
        }
    } else {
        let last = tasks.len() - 1;
        let shorter = tasks.drop_last();
        if is_visible(tasks.last(), show_done) {
            let k = choose|k: int| 0 <= k < indices.len() && indices[k] == last;
            if k < indices.len() - 1 {
                assert(indices[k] < indices[indices.len() - 1]);
            }
            let front = indices.drop_last();
            assert forall|i: int|
                0 <= i < shorter.len() && is_visible(
                    #[trigger] shorter[i],
                    show_done,
                ) implies front.contains(i) by {
                let j = choose|j: int| 0 <= j < indices.len() && indices[j] == i;
                assert(front[j] == i);
            }
            lemma_lists_visible_unique(front, shorter, show_done);
        } else {
            lemma_lists_visible_unique(indices, shorter, show_done);
        }
    }
}

/// `to` is the nearest position after `from` whose task passes the filter.
pub open spec fn is_next_visible(tasks: Seq<TodoView>, show_done: bool, from: int, to: int) -> bool {
    &&& from < to < tasks.len()
    &&& is_visible(tasks[to], show_done)
    &&& forall|k: int| from < k < to ==> !is_visible(#[trigger] tasks[k], show_done)
}

/// `to` is the nearest position before `from` whose task passes the filter.
pub open spec fn is_prev_visible(tasks: Seq<TodoView>, show_done: bool, from: int, to: int) -> bool {
    &&& 0 <= to < from
    &&& is_visible(tasks[to], show_done)
    &&& forall|k: int| to < k < from ==> !is_visible(#[trigger] tasks[k], show_done)
}

/// The nearest visible position after `from`, or `from` itself if no position
/// after it is visible.
pub open spec fn next_visible_idx(tasks: Seq<TodoView>, show_done: bool, from: int) -> int {
    if exists|to: int| is_next_visible(tasks, show_done, from, to) {
        choose|to: int| is_next_visible(tasks, show_done, from, to)
    } else {
        from
    }
}

/// The nearest visible position before `from`, or `from` itself if no position
/// before it is visible.
pub open spec fn prev_visible_idx(tasks: Seq<TodoView>, show_done: bool, from: int) -> int {
    if exists|to: int| is_prev_visible(tasks, show_done, from, to) {
        choose|to: int| is_prev_visible(tasks, show_done, from, to)
    } else {
        from
    }
}

/// The nearest visible position after `from` is unique.
pub proof fn lemma_next_visible_found(tasks: Seq<TodoView>, show_done: bool, from: int, to: int)
    requires
        is_next_visible(tasks, show_done, from, to),
    ensures
        next_visible_idx(tasks, show_done, from) == to,
{
}

/// Where nothing after `from` is visible, the search stays at `from`.
pub proof fn lemma_next_visible_none(tasks: Seq<TodoView>, show_done: bool, from: int)
    requires
        forall|k: int| from < k < tasks.len() ==> !is_visible(#[trigger] tasks[k], show_done),
    ensures
        next_visible_idx(tasks, show_done, from) == from,
{
}

/// The nearest visible position before `from` is unique.
pub proof fn lemma_prev_visible_found(tasks: Seq<TodoView>, show_done: bool, from: int, to: int)
    requires
        is_prev_visible(tasks, show_done, from, to),
    ensures
        prev_visible_idx(tasks, show_done, from) == to,
{
}

/// Where nothing before `from` is visible, the search stays at `from`.
pub proof fn lemma_prev_visible_none(tasks: Seq<TodoView>, show_done: bool, from: int)
    requires
        forall|k: int| 0 <= k < from ==> !is_visible(#[trigger] tasks[k], show_done),
    ensures
        prev_visible_idx(tasks, show_done, from) == from,
{
}

/// Where some position after `from` is visible, one of them is the nearest.
pub proof fn lemma_visible_after_has_nearest(
    tasks: Seq<TodoView>,
    show_done: bool,
    from: int,
    at: int,
)
    requires
        from < at < tasks.len(),
        is_visible(tasks[at], show_done),
    ensures
        exists|to: int| is_next_visible(tasks, show_done, from, to),
    decreases at - from,
{
    if forall|k: int| from < k < at ==> !is_visible(#[trigger] tasks[k], show_done) {
        assert(is_next_visible(tasks, show_done, from, at));
    } else {
        let nearer = choose|k: int| from < k < at && is_visible(#[trigger] tasks[k], show_done);
        lemma_visible_after_has_nearest(tasks, show_done, from, nearer);
    }
}

/// Where some position before `from` is visible, one of them is the nearest.
pub proof fn lemma_visible_before_has_nearest(
    tasks: Seq<TodoView>,
    show_done: bool,
    from: int,
    at: int,
)
    requires
        0 <= at < from,
        is_visible(tasks[at], show_done),
    ensures
        exists|to: int| is_prev_visible(tasks, show_done, from, to),
    decreases from - at,
{
    if forall|k: int| at < k < from ==> !is_visible(#[trigger] tasks[k], show_done) {
        assert(is_prev_visible(tasks, show_done, from, at));
    } else {
        let nearer = choose|k: int| at < k < from && is_visible(#[trigger] tasks[k], show_done);
        lemma_visible_before_has_nearest(tasks, show_done, from, nearer);
    }
}

} // verus!
