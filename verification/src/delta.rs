//! Partial updates: a field is either left as it is or replaced.

use crate::task::{Priority, Task, TaskView};
use crate::timestamp::{Timestamp, TimestampView};
use vstd::prelude::*;

verus! {

/// Either "leave the value as it is" or "replace it by this one".
#[derive(Debug, PartialEq, Eq)]
pub enum Delta<T> {
    Unchanged,
    Changed(T),
}

impl<T: Clone> Clone for Delta<T> {
    fn clone(&self) -> (r: Self)
        ensures
            match (*self, r) {
                (Delta::Unchanged, Delta::Unchanged) => true,
                (Delta::Changed(a), Delta::Changed(b)) => cloned(a, b),
                _ => false,
            },
    {
        match self {
            Delta::Unchanged => Delta::Unchanged,
            Delta::Changed(value) => Delta::Changed(value.clone()),
        }
    }
}

impl<T: Copy> Copy for Delta<T> {

}

impl<T> Default for Delta<T> {
    fn default() -> (r: Self)
        ensures
            r == Delta::<T>::Unchanged,
    {
        Delta::Unchanged
    }
}

impl<T> Delta<T> {
    /// The value a field holds after this delta went over `old`.
    pub open spec fn spec_apply_to(self, old: T) -> T {
        match self {
            Delta::Unchanged => old,
            Delta::Changed(new) => new,
        }
    }

    /// The value after the delta went over `old`: `old` itself where nothing
    /// changes, the changed value where something does.
    #[must_use]
    pub fn apply_to(self, old: T) -> (new: T)
        ensures
            new == self.spec_apply_to(old),
    {
        match self {
            Delta::Unchanged => old,
            Delta::Changed(new) => new,
        }
    }
}

/// One delta for each field of a task that can change.
#[derive(Debug, PartialEq, Eq)]
pub struct TaskDelta {
    pub complete: Delta<bool>,
    pub description: Delta<String>,
    pub priority: Delta<Priority>,
    /// `Changed(None)` takes the due date away.
    pub due_date: Delta<Option<Timestamp>>,
}

/// Mathematical value of a [`TaskDelta`].
pub ghost struct TaskDeltaView {
    pub complete: Delta<bool>,
    pub description: Delta<Seq<char>>,
    pub priority: Delta<Priority>,
    pub due_date: Delta<Option<TimestampView>>,
}

impl View for TaskDelta {
    type V = TaskDeltaView;

    open spec fn view(&self) -> TaskDeltaView {
        TaskDeltaView {
            complete: self.complete,
            description: match self.description {
                Delta::Unchanged => Delta::Unchanged,
                Delta::Changed(text) => Delta::Changed(text@),
            },
            priority: self.priority,
            due_date: match self.due_date {
                Delta::Unchanged => Delta::Unchanged,
                Delta::Changed(None) => Delta::Changed(None),
                Delta::Changed(Some(due)) => Delta::Changed(Some(due@)),
            },
        }
    }
}

impl TaskDeltaView {
    /// A due date, where one is set, exists. Every [`TaskDelta`] has such a
    /// value.
    pub open spec fn valid(self) -> bool {
        self.due_date matches Delta::Changed(Some(due)) ==> due.valid()
    }

    /// The task that is left when this delta went over `task`: each changed
    /// field replaced, each other field and the id kept.
    pub open spec fn apply_to(self, task: TaskView) -> TaskView {
        TaskView {
            id: task.id,
            complete: self.complete.spec_apply_to(task.complete),
            description: self.description.spec_apply_to(task.description),
            priority: self.priority.spec_apply_to(task.priority),
            due_date: self.due_date.spec_apply_to(task.due_date),
        }
    }

    /// The delta that changes nothing.
    pub open spec fn unchanged() -> TaskDeltaView {
        TaskDeltaView {
            complete: Delta::Unchanged,
            description: Delta::Unchanged,
            priority: Delta::Unchanged,
            due_date: Delta::Unchanged,
        }
    }

    /// Whether every field is changed.
    pub open spec fn changes_all(self) -> bool {
        &&& self.complete is Changed
        &&& self.description is Changed
        &&& self.priority is Changed
        &&& self.due_date is Changed
    }
}

impl Clone for TaskDelta {
    fn clone(&self) -> (r: Self)
        ensures
            r@ == self@,
    {
        TaskDelta {
            complete: self.complete,
            description: match &self.description {
                Delta::Unchanged => Delta::Unchanged,
                Delta::Changed(text) => Delta::Changed(text.clone()),
            },
            priority: self.priority,
            due_date: self.due_date,
        }
    }
}

impl Default for TaskDelta {
    fn default() -> (r: Self)
        ensures
            r@ == TaskDeltaView::unchanged(),
    {
        TaskDelta {
            complete: Delta::Unchanged,
            description: Delta::Unchanged,
            priority: Delta::Unchanged,
            due_date: Delta::Unchanged,
        }
    }
}

impl TaskDelta {
    /// Every delta has a valid value.
    pub fn check_valid(&self)
        ensures
            self@.valid(),
    {
        match self.due_date {
            Delta::Changed(Some(due)) => {
                due.check_valid();
            },
            _ => {},
        }
    }
}

impl Task {
    /// Lets a delta go over the task: the changed fields are replaced, the
    /// others stay, and so does the id.
    pub fn apply_delta(&mut self, delta: TaskDelta)
        ensures
            final(self)@ == delta@.apply_to(old(self)@),
    {
        self.complete = delta.complete.apply_to(self.complete);
        match delta.description {
            Delta::Unchanged => {},
            Delta::Changed(text) => {
                self.description = text;
            },
        }
        self.priority = delta.priority.apply_to(self.priority);
        self.due_date = delta.due_date.apply_to(self.due_date);
    }
}

/// A delta that changes nothing leaves the value as it is; one that changes
/// gives the new value, whatever the old one was.
pub proof fn lemma_delta_identity<T>(old_value: T, new_value: T)
    ensures
        Delta::<T>::Unchanged.spec_apply_to(old_value) == old_value,
        Delta::Changed(new_value).spec_apply_to(old_value) == new_value,
{
}

/// A task delta whose fields are all unchanged leaves every task as it is.
pub proof fn lemma_unchanged_delta_keeps_task(task: TaskView)
    ensures
        TaskDeltaView::unchanged().apply_to(task) == task,
{
}

/// A task delta whose fields are all changed replaces every field of the
/// task but its id: nothing of the old task is left in them, and a due date
/// changed to none is gone.
pub proof fn lemma_full_delta_replaces_task(delta: TaskDeltaView, task: TaskView, other: TaskView)
    requires
        delta.changes_all(),
    ensures
        delta.apply_to(task).complete == delta.complete->Changed_0,
        delta.apply_to(task).description == delta.description->Changed_0,
        delta.apply_to(task).priority == delta.priority->Changed_0,
        delta.apply_to(task).due_date == delta.due_date->Changed_0,
        delta.due_date == Delta::Changed(None::<TimestampView>) ==> delta.apply_to(task).due_date
            is None,
        delta.apply_to(task).id == task.id,
        other.id == task.id ==> delta.apply_to(other) == delta.apply_to(task),
{
}

} // verus!
