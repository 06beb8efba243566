//! A single task and the flat record it is stored as.

use crate::time::{current_time, Span, Timestamp};
use vstd::prelude::*;

verus! {

/// What a task is, with its texts as sequences of characters.
pub struct TodoView {
    /// The short label.
    pub name: Seq<char>,
    /// The free text.
    pub desc: Seq<char>,
    /// Whether the task is completed.
    pub done: bool,
    /// The expected effort.
    pub time_taken: Option<Span>,
    /// When the task is planned.
    pub do_at: Option<Timestamp>,
    /// When the task is due.
    pub do_by: Option<Timestamp>,
}

/// What a stored record is: durations in milliseconds, instants in whole
/// seconds since the epoch.
pub struct TodoRecordView {
    pub name: Seq<char>,
    pub desc: Seq<char>,
    pub done: bool,
    pub time_taken: Option<i64>,
    pub do_at: Option<i64>,
    pub do_by: Option<i64>,
}

/// The whole seconds of an optional instant.
pub open spec fn secs_of(t: Option<Timestamp>) -> Option<i64> {
    match t {
        Some(t) => Some(t.secs),
        None => None,
    }
}

/// The optional instant that lies a whole number of seconds from the epoch.
pub open spec fn at_secs(s: Option<i64>) -> Option<Timestamp> {
    match s {
        Some(secs) => Some(Timestamp { secs, nanos: 0 }),
        None => None,
    }
}

/// An optional instant with the part below one second dropped.
pub open spec fn whole_seconds_of(t: Option<Timestamp>) -> Option<Timestamp> {
    match t {
        Some(t) => Some(t.whole_seconds()),
        None => None,
    }
}

/// The milliseconds of an optional span.
pub open spec fn millis_of(d: Option<Span>) -> Option<i64> {
    match d {
        Some(d) => Some(d.millis),
        None => None,
    }
}

/// The optional span of that many milliseconds.
pub open spec fn of_millis(m: Option<i64>) -> Option<Span> {
    match m {
        Some(millis) => Some(Span { millis }),
        None => None,
    }
}

impl TodoView {
    /// A task is late at `now` when it has a due time and `now` is past it,
    /// whether or not it is done.
    pub open spec fn is_late_at(self, now: Timestamp) -> bool {
        match self.do_by {
            Some(due) => now.later_than(due),
            None => false,
        }
    }

    /// The record that stores the task. Instants lose what lies below one
    /// second.
    pub open spec fn record(self) -> TodoRecordView {
        TodoRecordView {
            name: self.name,
            desc: self.desc,
            done: self.done,
            time_taken: millis_of(self.time_taken),
            do_at: secs_of(self.do_at),
            do_by: secs_of(self.do_by),
        }
    }

    /// The same task with both instants cut down to whole seconds.
    pub open spec fn truncated(self) -> TodoView {
        TodoView {
            do_at: whole_seconds_of(self.do_at),
            do_by: whole_seconds_of(self.do_by),
            ..self
        }
    }

    /// Whether neither instant has a part below one second.
    pub open spec fn whole_seconds(self) -> bool {
        &&& self.do_at matches Some(t) ==> t.nanos == 0
        &&& self.do_by matches Some(t) ==> t.nanos == 0
    }
}

impl TodoRecordView {
    /// The task that a record stands for.
    pub open spec fn todo(self) -> TodoView {
        TodoView {
            name: self.name,
            desc: self.desc,
            done: self.done,
            time_taken: of_millis(self.time_taken),
            do_at: at_secs(self.do_at),
            do_by: at_secs(self.do_by),
        }
    }
}

/// The stored form of one task, field by field: a duration as milliseconds, an
/// instant as whole seconds since the epoch.
#[derive(Debug, PartialEq)]
pub struct TodoRecord {
    /// The short label.
    pub name: String,
    /// The free text.
    pub desc: String,
    /// Whether the task is completed.
    pub done: bool,
    /// The expected effort in milliseconds.
    pub time_taken: Option<i64>,
    /// When the task is planned, in seconds since the epoch.
    pub do_at: Option<i64>,
    /// When the task is due, in seconds since the epoch.
    pub do_by: Option<i64>,
}

impl View for TodoRecord {
    type V = TodoRecordView;

    open spec fn view(&self) -> TodoRecordView {
        TodoRecordView {
            name: self.name@,
            desc: self.desc@,
            done: self.done,
            time_taken: self.time_taken,
            do_at: self.do_at,
            do_by: self.do_by,
        }
    }
}

/// Storing a task and reading it back gives the same task with its instants
/// cut down to whole seconds, and so the very same task where they had no
/// part below one second.
pub proof fn lemma_record_round_trip(task: TodoView)
    ensures
        task.record().todo() == task.truncated(),
        task.whole_seconds() ==> task.record().todo() == task,
        task.truncated().whole_seconds(),
{
}

/// Reading a record and storing the task again gives the same record.
pub proof fn lemma_record_is_kept(record: TodoRecordView)
    ensures
        record.todo().record() == record,
        record.todo().whole_seconds(),
{
}

/// One to-do item. It has no identity beyond its place in the list that owns it.
#[derive(Debug, PartialEq)]
pub struct Todo {
    name: String,
    desc: String,
    done: bool,
    time_taken: Option<Span>,
    do_at: Option<Timestamp>,
    do_by: Option<Timestamp>,
}

impl View for Todo {
    type V = TodoView;

    closed spec fn view(&self) -> TodoView {
        TodoView {
            name: self.name@,
            desc: self.desc@,
            done: self.done,
            time_taken: self.time_taken,
            do_at: self.do_at,
            do_by: self.do_by,
        }
    }
}

impl Clone for Todo {
    /// A task equal to this one in every field.
    fn clone(&self) -> (copy: Todo)
        ensures
            copy == *self,
    {
        Todo {
            name: self.name.clone(),
            desc: self.desc.clone(),
            done: self.done,
            time_taken: self.time_taken,
            do_at: self.do_at,
            do_by: self.do_by,
        }
    }
}

impl Todo {
    /// A task that is not done and has no duration, schedule or due time.
    pub fn new(name: String, desc: String) -> (t: Todo)
        ensures
            t@ == (TodoView {
                name: name@,
                desc: desc@,
                done: false,
                time_taken: None,
                do_at: None,
                do_by: None,
            }),
    {
        Todo { name, desc, done: false, time_taken: None, do_at: None, do_by: None }
    }

    /// The same task, scheduled for `datetime`.
    pub fn do_at(self, datetime: Timestamp) -> (t: Todo)
        ensures
            t@ == (TodoView { do_at: Some(datetime), ..self@ }),
    {
        Todo { do_at: Some(datetime), ..self }
    }

    /// The same task, due by `datetime`.
    pub fn do_by(self, datetime: Timestamp) -> (t: Todo)
        ensures
            t@ == (TodoView { do_by: Some(datetime), ..self@ }),
    {
        Todo { do_by: Some(datetime), ..self }
    }

    /// The same task, expected to take `duration`.
    pub fn time_taken(self, duration: Span) -> (t: Todo)
        ensures
            t@ == (TodoView { time_taken: Some(duration), ..self@ }),
    {
        Todo { time_taken: Some(duration), ..self }
    }

    /// The same task with its completion flag flipped.
    pub fn toggle_done(self) -> (t: Todo)
        ensures
            t@ == (TodoView { done: !self@.done, ..self@ }),
    {
        Todo { done: !self.done, ..self }
    }

    /// A copy of the name.
    pub fn get_name(&self) -> (name: String)
        ensures
            name@ == self@.name,
    {
        self.name.clone()
    }

    /// A copy of the description.
    pub fn get_desc(&self) -> (desc: String)
        ensures
            desc@ == self@.desc,
    {
        self.desc.clone()
    }

    /// Whether the task is completed.
    pub fn is_done(&self) -> (done: bool)
        ensures
            done == self@.done,
    {
        self.done
    }

    /// The expected effort, if one is set.
    pub fn get_time_taken(&self) -> (duration: Option<Span>)
        ensures
            duration == self@.time_taken,
    {
        self.time_taken
    }

    /// When the task is planned, if that is set.
    pub fn get_do_at(&self) -> (datetime: Option<Timestamp>)
        ensures
            datetime == self@.do_at,
    {
        self.do_at
    }

    /// When the task is due, if that is set.
    pub fn get_do_by(&self) -> (datetime: Option<Timestamp>)
        ensures
            datetime == self@.do_by,
    {
        self.do_by
    }

    /// Whether the task is late when the clock reads `now`.
    pub fn is_late_at(&self, now: &Timestamp) -> (late: bool)
        ensures
            late == self@.is_late_at(*now),
    {
        match self.do_by {
            Some(due) => now.is_after(&due),
            None => false,
        }
    }

    /// Whether the task is late by the system clock, which is read only when
    /// the task has a due time. The answer is that of `is_late_at` for the
    /// instant the clock gave, whatever that instant is: a clock set before
    /// the epoch reads as an instant with negative seconds.
    pub fn is_late(&self) -> (late: bool)
        ensures
            exists|now: Timestamp| late == #[trigger] self@.is_late_at(now),
            self@.do_by is None ==> !late,
    {
        match self.do_by {
            Some(_) => {
                let now = current_time();
                self.is_late_at(&now)
            },
            None => {
                assert(!self@.is_late_at(Timestamp { secs: 0, nanos: 0 }));
                false
            },
        }
    }

    /// The record that stores the task.
    pub fn to_record(&self) -> (record: TodoRecord)
        ensures
            record@ == self@.record(),
    {
        TodoRecord {
            name: self.name.clone(),
            desc: self.desc.clone(),
            done: self.done,
            time_taken: match self.time_taken {
                Some(duration) => Some(duration.num_milliseconds()),
                None => None,
            },
            do_at: match self.do_at {
                Some(datetime) => Some(datetime.timestamp()),
                None => None,
            },
            do_by: match self.do_by {
                Some(datetime) => Some(datetime.timestamp()),
                None => None,
            },
        }
    }

    /// The task that `record` stores.
    pub fn from_record(record: &TodoRecord) -> (t: Todo)
        ensures
            t@ == record@.todo(),
    {
        Todo {
            name: record.name.clone(),
            desc: record.desc.clone(),
            done: record.done,
            time_taken: match record.time_taken {
                Some(millis) => Some(Span::milliseconds(millis)),
                None => None,
            },
            do_at: match record.do_at {
                Some(secs) => Some(Timestamp::from_secs(secs)),
                None => None,
            },
            do_by: match record.do_by {
                Some(secs) => Some(Timestamp::from_secs(secs)),
                None => None,
            },
        }
    }
}

} // verus!
