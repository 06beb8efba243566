//! The list state: the tasks in insertion order, the completion filter, the
//! positions the filter lets through, and the selected position.

use crate::todo::{Todo, TodoRecord, TodoRecordView, TodoView};
use crate::visibility::{
    is_visible, lemma_next_visible_found, lemma_next_visible_none, lemma_prev_visible_found,
    lemma_prev_visible_none, lemma_visible_after_has_nearest, lemma_visible_before_has_nearest,
    lemma_visible_indices_lists_visible, lists_visible, next_visible_idx, prev_visible_idx,
    visible_indices,
};
use vstd::prelude::*;

verus! {

/// What a list state is: tasks as their views, positions as integers.
pub struct ProgramDataView {
    /// The tasks, in insertion order.
    pub tasks: Seq<TodoView>,
    /// Whether completed tasks are shown.
    pub show_done: bool,
    /// The positions in `tasks` that are shown, in display order.
    pub visible: Seq<int>,
    /// The selected position in `tasks`, if any.
    pub selected: Option<int>,
}

impl ProgramDataView {
    /// The state is well formed when `visible` lists, in ascending order, the
    /// positions of the tasks that pass the filter, and the selection, if
    /// any, is a position of the list.
    pub open spec fn wf(self) -> bool {
        &&& self.visible == visible_indices(self.tasks, self.show_done)
        &&& self.selected matches Some(i) ==> 0 <= i < self.tasks.len()
    }

    /// The state over `tasks` with the filter set to `show_done` and `selected`
    /// selected.
    pub open spec fn over(tasks: Seq<TodoView>, show_done: bool, selected: Option<int>) -> Self {
        ProgramDataView { tasks, show_done, visible: visible_indices(tasks, show_done), selected }
    }

    /// The empty state: no task, completed tasks hidden, nothing selected.
    pub open spec fn blank() -> Self {
        Self::over(Seq::empty(), false, None)
    }

    /// `task` appended; filter and selection stay.
    pub open spec fn add_task(self, task: TodoView) -> Self {
        Self::over(self.tasks.push(task), self.show_done, self.selected)
    }

    /// Each of `tasks` appended in turn.
    pub open spec fn add_tasks(self, tasks: Seq<TodoView>) -> Self
        decreases tasks.len(),
    {
        if tasks.len() == 0 {
            self
        } else {
            self.add_tasks(tasks.drop_last()).add_task(tasks.last())
        }
    }

    /// The tasks that are shown, in display order.
    pub open spec fn visible_tasks(self) -> Seq<TodoView> {
        self.visible.map_values(|i: int| self.tasks[i])
    }

    /// The selected task, if any.
    pub open spec fn current_task(self) -> Option<TodoView> {
        match self.selected {
            Some(i) => Some(self.tasks[i]),
            None => None,
        }
    }

    /// Where the selected task stands among the shown ones, if it is shown.
    pub open spec fn selected_row(self) -> Option<int> {
        match self.selected {
            Some(i) => if self.visible.contains(i) {
                Some(self.visible.index_of(i))
            } else {
                None
            },
            None => None,
        }
    }

    /// The stored form: one record for each task, in order.
    pub open spec fn snapshot(self) -> Seq<TodoRecordView> {
        self.tasks.map_values(|t: TodoView| t.record())
    }

    /// The state read back from stored records: their tasks in order,
    /// completed tasks hidden, nothing selected.
    pub open spec fn restored(records: Seq<TodoRecordView>) -> Self {
        Self::over(records.map_values(|r: TodoRecordView| r.todo()), false, None)
    }

    /// The filter flipped; tasks and selection stay.
    pub open spec fn toggle_show_done(self) -> Self {
        Self::over(self.tasks, !self.show_done, self.selected)
    }

    /// The selection moved forward: from nothing to the first task, if there
    /// is one; from a task to the nearest visible task after it, if there is
    /// one. Otherwise it stays.
    pub open spec fn next_task(self) -> Self {
        ProgramDataView {
            selected: match self.selected {
                Some(i) => Some(next_visible_idx(self.tasks, self.show_done, i)),
                None => if self.tasks.len() > 0 {
                    Some(0)
                } else {
                    None
                },
            },
            ..self
        }
    }

    /// The selection moved backward: from nothing to the first task, if there
    /// is one; from a task to the nearest visible task before it, if there is
    /// one. Otherwise it stays.
    pub open spec fn prev_task(self) -> Self {
        ProgramDataView {
            selected: match self.selected {
                Some(i) => Some(prev_visible_idx(self.tasks, self.show_done, i)),
                None => if self.tasks.len() > 0 {
                    Some(0)
                } else {
                    None
                },
            },
            ..self
        }
    }

    /// Whether the selection, if there is one, is on a shown task.
    pub open spec fn selection_shown(self) -> bool {
        self.selected matches Some(i) ==> 0 <= i < self.tasks.len() && is_visible(
            self.tasks[i],
            self.show_done,
        )
    }

    /// Whether a move forward has a shown task to end on: the selected task
    /// or one after it; with nothing selected, the first task of the list,
    /// if the list has one.
    pub open spec fn shown_ahead(self) -> bool {
        match self.selected {
            Some(i) => exists|k: int|
                i <= k < self.tasks.len() && is_visible(#[trigger] self.tasks[k], self.show_done),
            None => self.tasks.len() > 0 ==> is_visible(self.tasks[0], self.show_done),
        }
    }

    /// Whether a move backward has a shown task to end on: the selected task
    /// or one before it; with nothing selected, the first task of the list,
    /// if the list has one.
    pub open spec fn shown_behind(self) -> bool {
        match self.selected {
            Some(i) => exists|k: int|
                0 <= k <= i && is_visible(#[trigger] self.tasks[k], self.show_done),
            None => self.tasks.len() > 0 ==> is_visible(self.tasks[0], self.show_done),
        }
    }

    /// The tasks with the completion flag of the task at `i` flipped.
    pub open spec fn tasks_toggled_at(self, i: int) -> Seq<TodoView> {
        self.tasks.update(i, TodoView { done: !self.tasks[i].done, ..self.tasks[i] })
    }

    /// The selected task's completion flag flipped. While completed tasks are
    /// hidden the selection then moves forward as `next_task` moves it.
    /// Nothing changes when nothing is selected.
    pub open spec fn toggle_done(self) -> Self {
        match self.selected {
            Some(i) => {
                let toggled = Self::over(self.tasks_toggled_at(i), self.show_done, self.selected);
                if self.show_done {
                    toggled
                } else {
                    toggled.next_task()
                }
            },
            None => self,
        }
    }

    /// The selected task removed. The selection is cleared when the list
    /// becomes empty, steps back by one when the last task was removed, and
    /// stays otherwise. Nothing changes when nothing is selected.
    pub open spec fn delete_current(self) -> Self {
        match self.selected {
            Some(i) => {
                let tasks = self.tasks.remove(i);
                let selected = if tasks.len() == 0 {
                    None
                } else if i >= tasks.len() {
                    Some(i - 1)
                } else {
                    Some(i)
                };
                Self::over(tasks, self.show_done, selected)
            },
            None => self,
        }
    }
}

/// However many tasks are appended to a well-formed state, the shown
/// positions are exactly those of the tasks that pass the filter, in
/// ascending order, and filter and selection are as before.
pub proof fn lemma_add_tasks_lists_visible(start: ProgramDataView, added: Seq<TodoView>)
    requires
        start.wf(),
    ensures
        start.add_tasks(added).wf(),
        start.add_tasks(added).tasks == start.tasks + added,
        start.add_tasks(added).show_done == start.show_done,
        start.add_tasks(added).selected == start.selected,
        lists_visible(
            start.add_tasks(added).visible,
            start.add_tasks(added).tasks,
            start.show_done,
        ),
    decreases added.len(),
{
    if added.len() > 0 {
        lemma_add_tasks_lists_visible(start, added.drop_last());
    }
    lemma_visible_indices_lists_visible(start.add_tasks(added).tasks, start.show_done);
}

/// Flipping the filter twice gives back the state as it was, and with it the
/// shown positions.
pub proof fn lemma_toggle_show_done_twice(state: ProgramDataView)
    requires
        state.wf(),
    ensures
        state.toggle_show_done().wf(),
        state.toggle_show_done().toggle_show_done() == state,
        state.toggle_show_done().toggle_show_done().visible == state.visible,
{
}

/// Removing the only task of a list, selected, leaves an empty list with
/// nothing selected and nothing shown.
pub proof fn lemma_delete_only_task(state: ProgramDataView)
    requires
        state.wf(),
        state.tasks.len() == 1,
        state.selected == Some(0int),
    ensures
        state.delete_current() == ProgramDataView::over(Seq::empty(), state.show_done, None),
        state.delete_current().tasks.len() == 0,
        state.delete_current().visible.len() == 0,
        state.delete_current().selected is None,
{
    assert(state.tasks.remove(0) =~= Seq::empty());
}

/// Moving the selection changes nothing else and never leaves the list: the
/// selection, where there is one afterwards, is a position of the list.
pub proof fn lemma_navigation_stays_in_range(state: ProgramDataView)
    requires
        state.wf(),
    ensures
        state.next_task().wf(),
        state.prev_task().wf(),
        state.next_task() == (ProgramDataView { selected: state.next_task().selected, ..state }),
        state.prev_task() == (ProgramDataView { selected: state.prev_task().selected, ..state }),
        state.selected matches Some(i) ==> (state.next_task().selected matches Some(j) && i <= j
            < state.tasks.len()),
        state.selected matches Some(i) ==> (state.prev_task().selected matches Some(j) && 0 <= j
            <= i),
{
}

/// A move that changes the selection of a task ends on a shown task.
pub proof fn lemma_moved_selection_is_visible(state: ProgramDataView)
    requires
        state.wf(),
        state.selected is Some,
    ensures
        state.next_task().selected != state.selected ==> (state.next_task().selected matches Some(
            j,
        ) && is_visible(state.tasks[j], state.show_done)),
        state.prev_task().selected != state.selected ==> (state.prev_task().selected matches Some(
            j,
        ) && is_visible(state.tasks[j], state.show_done)),
{
}

/// A move forward ends on a shown task, or with nothing selected in an
/// empty list, from every state that has a shown task ahead.
pub proof fn lemma_next_task_selects_visible(state: ProgramDataView)
    requires
        state.wf(),
        state.shown_ahead(),
    ensures
        state.next_task().selection_shown(),
{
    if let Some(i) = state.selected {
        let k = choose|k: int|
            i <= k < state.tasks.len() && is_visible(#[trigger] state.tasks[k], state.show_done);
        if k > i {
            lemma_visible_after_has_nearest(state.tasks, state.show_done, i, k);
        }
    }
}

/// From a state that has no shown task ahead, a move forward ends on a
/// hidden task.
pub proof fn lemma_next_task_selects_hidden(state: ProgramDataView)
    requires
        state.wf(),
        !state.shown_ahead(),
    ensures
        !state.next_task().selection_shown(),
{
    if let Some(i) = state.selected {
        assert(!is_visible(state.tasks[i], state.show_done));
        lemma_next_visible_none(state.tasks, state.show_done, i);
    }
}

/// A move backward ends on a shown task, or with nothing selected in an
/// empty list, from every state that has a shown task behind.
pub proof fn lemma_prev_task_selects_visible(state: ProgramDataView)
    requires
        state.wf(),
        state.shown_behind(),
    ensures
        state.prev_task().selection_shown(),
{
    if let Some(i) = state.selected {
        let k = choose|k: int|
            0 <= k <= i && is_visible(#[trigger] state.tasks[k], state.show_done);
        if k < i {
            lemma_visible_before_has_nearest(state.tasks, state.show_done, i, k);
        }
    }
}

/// From a state that has no shown task behind, a move backward ends on a
/// hidden task.
pub proof fn lemma_prev_task_selects_hidden(state: ProgramDataView)
    requires
        state.wf(),
        !state.shown_behind(),
    ensures
        !state.prev_task().selection_shown(),
{
    if let Some(i) = state.selected {
        assert(!is_visible(state.tasks[i], state.show_done));
        lemma_prev_visible_none(state.tasks, state.show_done, i);
    }
}

/// Storing a state and reading it back gives the same tasks in the same
/// order, each with its instants cut down to whole seconds; the filter and
/// the selection start afresh.
pub proof fn lemma_snapshot_round_trip(state: ProgramDataView)
    ensures
        ProgramDataView::restored(state.snapshot()).wf(),
        ProgramDataView::restored(state.snapshot()).tasks == state.tasks.map_values(
            |t: TodoView| t.truncated(),
        ),
        ProgramDataView::restored(state.snapshot()).show_done == false,
        ProgramDataView::restored(state.snapshot()).selected is None,
{
}

/// The stored form of a task list: one record for each task, in order.
#[derive(Debug, PartialEq)]
pub struct Snapshot {
    pub tasks: Vec<TodoRecord>,
}

impl View for Snapshot {
    type V = Seq<TodoRecordView>;

    open spec fn view(&self) -> Seq<TodoRecordView> {
        self.tasks@.map_values(|r: TodoRecord| r@)
    }
}

/// The task list with its cursor and filter.
#[derive(Debug)]
pub struct ProgramData {
    tasks: Vec<Todo>,
    select_idx: Option<usize>,
    show_done: bool,
    visible: Vec<usize>,
}

impl View for ProgramData {
    type V = ProgramDataView;

    closed spec fn view(&self) -> ProgramDataView {
        ProgramDataView {
            tasks: self.tasks@.map_values(|t: Todo| t@),
            show_done: self.show_done,
            visible: self.visible@.map_values(|i: usize| i as int),
            selected: match self.select_idx {
                Some(i) => Some(i as int),
                None => None,
            },
        }
    }
}

impl ProgramData {
    /// Whether the state is well formed. Every constructor gives a well-formed
    /// state and every operation keeps it so.
    pub open spec fn wf(&self) -> bool {
        self@.wf()
    }

    /// An empty list with completed tasks hidden and nothing selected.
    pub fn new_blank() -> (data: ProgramData)
        ensures
            data.wf(),
            data@ == ProgramDataView::blank(),
    {
        let data = ProgramData {
            tasks: Vec::new(),
            select_idx: None,
            show_done: false,
            visible: Vec::new(),
        };
        assert(data@.tasks =~= Seq::empty());
        assert(data@.visible =~= Seq::empty());
        data
    }

    /// Whether `task` passes the filter as it is set now.
    fn is_visible(&self, task: &Todo) -> (shown: bool)
        ensures
            shown == is_visible(task@, self@.show_done),
    {
        self.show_done || !task.is_done()
    }

    /// Recomputes the shown positions from the tasks and the filter.
    fn update_visible(&mut self)
        ensures
            final(self)@ == ProgramDataView::over(
                old(self)@.tasks,
                old(self)@.show_done,
                old(self)@.selected,
            ),
    {
        let ghost tasks = self@.tasks;
        let mut visible: Vec<usize> = Vec::new();
        let mut i: usize = 0;
        while i < self.tasks.len()
            invariant
                i <= self.tasks.len(),
                self@.tasks == tasks,
                *self == *old(self),
                visible@.map_values(|i: usize| i as int) == visible_indices(
                    tasks.take(i as int),
                    self@.show_done,
                ),
            decreases self.tasks.len() - i,
        {
            let shown = self.is_visible(&self.tasks[i]);
            assert(tasks.take(i + 1).drop_last() =~= tasks.take(i as int));
            if shown {
                visible.push(i);
            }
            i += 1;
        }
        assert(tasks.take(i as int) =~= tasks);
        self.visible = visible;
    }

    /// Appends `task`. The selection stays where it is.
    pub fn add_task(&mut self, task: Todo)
        requires
            old(self).wf(),
        ensures
            final(self).wf(),
            final(self)@ == old(self)@.add_task(task@),
    {
        self.tasks.push(task);
        assert(self@.tasks =~= old(self)@.tasks.push(task@));
        self.update_visible();
    }

    /// Whether completed tasks are shown.
    pub fn show_done(&self) -> (shown: bool)
        ensures
            shown == self@.show_done,
    {
        self.show_done
    }

    /// Flips the filter. The selection stays, even on a task that the filter
    /// now hides.
    pub fn toggle_show_done(&mut self)
        requires
            old(self).wf(),
        ensures
            final(self).wf(),
            final(self)@ == old(self)@.toggle_show_done(),
    {
        self.show_done = !self.show_done;
        self.update_visible();
    }

    /// The nearest visible position after `idx`, or `idx` if there is none.
    fn next_visible_task_idx(&self, idx: usize) -> (next: usize)
        requires
            idx < self.tasks.len(),
        ensures
            next == next_visible_idx(self@.tasks, self@.show_done, idx as int),
            idx <= next < self@.tasks.len(),
    {
        let mut out: usize = idx + 1;
        while out < self.tasks.len()
            invariant
                idx < out <= self.tasks.len(),
                forall|k: int|
                    idx < k < out ==> !is_visible(#[trigger] self@.tasks[k], self@.show_done),
            decreases self.tasks.len() - out,
        {
            if self.is_visible(&self.tasks[out]) {
                proof {
                    lemma_next_visible_found(
                        self@.tasks,
                        self@.show_done,
                        idx as int,
                        out as int,
                    );
                }
                return out;
            }
            out += 1;
        }
        proof {
            lemma_next_visible_none(self@.tasks, self@.show_done, idx as int);
        }
        idx
    }

    /// The nearest visible position before `idx`, or `idx` if there is none.
    fn prev_visible_task_idx(&self, idx: usize) -> (prev: usize)
        requires
            idx < self.tasks.len(),
        ensures
            prev == prev_visible_idx(self@.tasks, self@.show_done, idx as int),
            prev <= idx,
    {
        let mut out: usize = idx;
        while out > 0
            invariant
                out <= idx < self.tasks.len(),
                forall|k: int|
                    out <= k < idx ==> !is_visible(#[trigger] self@.tasks[k], self@.show_done),
            decreases out,
        {
            out -= 1;
            if self.is_visible(&self.tasks[out]) {
                proof {
                    lemma_prev_visible_found(
                        self@.tasks,
                        self@.show_done,
                        idx as int,
                        out as int,
                    );
                }
                return out;
            }
        }
        proof {
            lemma_prev_visible_none(self@.tasks, self@.show_done, idx as int);
        }
        idx
    }

    /// Moves the selection forward. With nothing selected it goes to the
    /// first task of a list that has one; otherwise to the nearest visible
    /// task after the selected one, and it stays if there is none.
    pub fn next_task(&mut self)
        requires
            old(self).wf(),
        ensures
            final(self).wf(),
            final(self)@ == old(self)@.next_task(),
    {
        match self.select_idx {
            Some(idx) => {
                let next = self.next_visible_task_idx(idx);
                self.select_idx = Some(next);
            },
            None => {
                if self.tasks.len() > 0 {
                    self.select_idx = Some(0);
                }
            },
        }
    }

    /// Moves the selection backward. With nothing selected it goes to the
    /// first task of a list that has one; otherwise to the nearest visible
    /// task before the selected one, and it stays if there is none.
    pub fn prev_task(&mut self)
        requires
            old(self).wf(),
        ensures
            final(self).wf(),
            final(self)@ == old(self)@.prev_task(),
    {
        match self.select_idx {
            Some(idx) => {
                let prev = self.prev_visible_task_idx(idx);
                self.select_idx = Some(prev);
            },
            None => {
                if self.tasks.len() > 0 {
                    self.select_idx = Some(0);
                }
            },
        }
    }

    /// Flips the completion flag of the selected task. While completed tasks
    /// are hidden the selection then moves on as `next_task` moves it. Does
    /// nothing when nothing is selected.
    pub fn toggle_done(&mut self)
        requires
            old(self).wf(),
        ensures
            final(self).wf(),
            final(self)@ == old(self)@.toggle_done(),
    {
        if let Some(idx) = self.select_idx {
            self.tasks[idx] = self.tasks[idx].clone().toggle_done();
            assert(self@.tasks =~= old(self)@.tasks_toggled_at(idx as int));
            if !self.show_done {
                let next = self.next_visible_task_idx(idx);
                self.select_idx = Some(next);
            }
        }
        self.update_visible();
    }

    /// Removes the selected task. The selection is cleared when the list
    /// becomes empty and steps back when the last task was removed. Does
    /// nothing when nothing is selected.
    pub fn delete_current(&mut self)
        requires
            old(self).wf(),
        ensures
            final(self).wf(),
            final(self)@ == old(self)@.delete_current(),
    {
        if let Some(idx) = self.select_idx {
            self.tasks.remove(idx);
            assert(self@.tasks =~= old(self)@.tasks.remove(idx as int));
            if self.tasks.len() == 0 {
                self.select_idx = None;
            } else if idx >= self.tasks.len() {
                self.select_idx = Some(idx - 1);
            }
        }
        self.update_visible();
    }

    /// The selected position. It counts in the whole list, not among the
    /// visible tasks.
    pub fn get_visible_idx(&self) -> (selected: Option<usize>)
        ensures
            match selected {
                Some(i) => self@.selected == Some(i as int),
                None => self@.selected is None,
            },
    {
        self.select_idx
    }

    /// The selected task, if any.
    pub fn get_current_task(&self) -> (current: Option<&Todo>)
        requires
            self.wf(),
        ensures
            match current {
                Some(task) => self@.current_task() == Some(task@),
                None => self@.current_task() is None,
            },
    {
        match self.select_idx {
            Some(idx) => Some(&self.tasks[idx]),
            None => None,
        }
    }

    /// All tasks, in insertion order.
    pub fn get_tasks(&self) -> (tasks: &Vec<Todo>)
        ensures
            tasks@.map_values(|t: Todo| t@) == self@.tasks,
    {
        &self.tasks
    }

    /// A reference to each task, in insertion order.
    pub fn get_task_refs(&self) -> (refs: Vec<&Todo>)
        ensures
            refs@.map_values(|t: &Todo| t@) == self@.tasks,
    {
        let mut refs: Vec<&Todo> = Vec::new();
        let mut i: usize = 0;
        while i < self.tasks.len()
            invariant
                i <= self.tasks.len(),
                refs.len() == i,
                forall|j: int| 0 <= j < i ==> (#[trigger] refs@[j])@ == self@.tasks[j],
            decreases self.tasks.len() - i,
        {
            refs.push(&self.tasks[i]);
            i += 1;
        }
        refs
    }

    /// The tasks that the filter lets through, in insertion order.
    pub fn get_visible_tasks(&self) -> (shown: Vec<&Todo>)
        requires
            self.wf(),
        ensures
            shown@.map_values(|t: &Todo| t@) == self@.visible_tasks(),
    {
        proof {
            lemma_visible_indices_lists_visible(self@.tasks, self@.show_done);
        }
        let mut shown: Vec<&Todo> = Vec::new();
        let mut k: usize = 0;
        while k < self.visible.len()
            invariant
                k <= self.visible.len(),
                shown.len() == k,
                forall|j: int|
                    0 <= j < self.visible.len() ==> 0 <= #[trigger] self@.visible[j]
                        < self.tasks.len(),
                forall|j: int|
                    0 <= j < k ==> (#[trigger] shown@[j])@ == self@.tasks[self@.visible[j]],
            decreases self.visible.len() - k,
        {
            assert(0 <= self@.visible[k as int] < self.tasks.len());
            shown.push(&self.tasks[self.visible[k]]);
            k += 1;
        }
        shown
    }

    /// Where the selected task stands among the shown tasks, as
    /// `get_visible_tasks` lists them; `None` when nothing is selected or the
    /// selected task is hidden.
    pub fn selected_row(&self) -> (row: Option<usize>)
        requires
            self.wf(),
        ensures
            match row {
                Some(r) => self@.selected_row() == Some(r as int),
                None => self@.selected_row() is None,
            },
            row matches Some(r) ==> r < self@.visible.len() && Some(self@.visible[r as int])
                == self@.selected,
    {
        let idx = match self.select_idx {
            Some(idx) => idx,
            None => { return None; },
        };
        proof {
            lemma_visible_indices_lists_visible(self@.tasks, self@.show_done);
        }
        let mut k: usize = 0;
        while k < self.visible.len()
            invariant
                k <= self.visible.len(),
                self.select_idx == Some(idx),
                lists_visible(self@.visible, self@.tasks, self@.show_done),
                forall|j: int| 0 <= j < k ==> self@.visible[j] != idx,
            decreases self.visible.len() - k,
        {
            if self.visible[k] == idx {
                assert(self@.visible[k as int] == idx as int);
                return Some(k);
            }
            k += 1;
        }
        None
    }

    /// The stored form of the list: one record for each task, in order.
    pub fn to_snapshot(&self) -> (snapshot: Snapshot)
        ensures
            snapshot@ == self@.snapshot(),
    {
        let mut records: Vec<TodoRecord> = Vec::new();
        let mut i: usize = 0;
        while i < self.tasks.len()
            invariant
                i <= self.tasks.len(),
                records.len() == i,
                forall|j: int| 0 <= j < i ==> (#[trigger] records@[j])@ == self@.tasks[j].record(),
            decreases self.tasks.len() - i,
        {
            records.push(self.tasks[i].to_record());
            i += 1;
        }
        let snapshot = Snapshot { tasks: records };
        snapshot
    }

    /// The list that `snapshot` stores, with completed tasks hidden and
    /// nothing selected.
    pub fn from_snapshot(snapshot: &Snapshot) -> (data: ProgramData)
        ensures
            data.wf(),
            data@ == ProgramDataView::restored(snapshot@),
    {
        let mut tasks: Vec<Todo> = Vec::new();
        let mut i: usize = 0;
        while i < snapshot.tasks.len()
            invariant
                i <= snapshot.tasks.len(),
                tasks.len() == i,
                forall|j: int| 0 <= j < i ==> (#[trigger] tasks@[j])@ == snapshot@[j].todo(),
            decreases snapshot.tasks.len() - i,
        {
            tasks.push(Todo::from_record(&snapshot.tasks[i]));
            i += 1;
        }
        let mut data = ProgramData {
            tasks,
            select_idx: None,
            show_done: false,
            visible: Vec::new(),
        };
        assert(data@.tasks =~= snapshot@.map_values(|r: TodoRecordView| r.todo()));
        data.update_visible();
        data
    }
}

} // verus!
