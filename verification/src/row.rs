//! Tasks as rows of a table: an integer id, a flag, a text, the place of the
//! priority in its order, and the due date as seconds since the Unix epoch.

use crate::error::{ErrorView, YabuError};
use crate::store::Database;
use crate::task::{Priority, Task, TaskId, TaskView};
use crate::timestamp::{spec_from_unix, unix_seconds, utc_from_unix, Timestamp};
use vstd::prelude::*;

verus! {

/// The columns of a task other than its id.
#[derive(Debug, PartialEq, Eq)]
pub struct TaskValues {
    pub complete: bool,
    pub description: String,
    /// The place of the priority in its order.
    pub priority: u32,
    /// Seconds since the Unix epoch, where the task has a due date.
    pub due_date: Option<i64>,
}

/// A row as the table holds it.
#[derive(Debug, PartialEq, Eq)]
pub struct TaskRow {
    pub task_id: u32,
    pub values: TaskValues,
}

/// Mathematical value of a [`TaskValues`].
pub ghost struct TaskValuesView {
    pub complete: bool,
    pub description: Seq<char>,
    pub priority: u32,
    pub due_date: Option<i64>,
}

impl View for TaskValues {
    type V = TaskValuesView;

    open spec fn view(&self) -> TaskValuesView {
        TaskValuesView {
            complete: self.complete,
            description: self.description@,
            priority: self.priority,
            due_date: self.due_date,
        }
    }
}

/// The columns that a task is stored as. A due date is stored as its seconds
/// since the Unix epoch: its offset and the fraction of its second are not
/// kept. A task that has a due date is stored with one.
pub open spec fn spec_values(task: TaskView) -> TaskValuesView {
    TaskValuesView {
        complete: task.complete,
        description: task.description,
        priority: task.priority.spec_to_u32(),
        due_date: match task.due_date {
            Some(due) => unix_seconds(due),
            None => None,
        },
    }
}

/// The task that a row holds. A row with the id 0, with a number that is the
/// place of no priority, or with a due date out of the calendar's range holds
/// none; the first of these that applies is the error.
pub open spec fn spec_task_from_row(task_id: u32, values: TaskValuesView) -> Result<
    TaskView,
    ErrorView,
> {
    if task_id == 0 {
        Err(ErrorView::TaskIdZero)
    } else if Priority::spec_from_u32(values.priority) is None {
        Err(ErrorView::UnknownPriorityCode(values.priority))
    } else if values.due_date is Some && spec_from_unix(utc_from_unix(values.due_date->Some_0))
        is None {
        Err(ErrorView::DueDateOutOfRange(values.due_date->Some_0))
    } else {
        Ok(
            TaskView {
                id: Some(task_id),
                complete: values.complete,
                description: values.description,
                priority: Priority::spec_from_u32(values.priority)->Some_0,
                due_date: match values.due_date {
                    Some(seconds) => spec_from_unix(utc_from_unix(seconds)),
                    None => None,
                },
            },
        )
    }
}

impl Task {
    /// The columns that the task is stored as.
    pub fn values(&self) -> (values: TaskValues)
        ensures
            values@ == spec_values(self@),
            values@.due_date is Some <==> self@.due_date is Some,
    {
        TaskValues {
            complete: self.complete,
            description: self.description.clone(),
            priority: self.priority.to_u32(),
            due_date: match &self.due_date {
                Some(due) => Some(due.unix_timestamp()),
                None => None,
            },
        }
    }
}

impl Database {
    /// The task that a row holds.
    pub fn task_from_row(row: TaskRow) -> (r: Result<Task, YabuError>)
        ensures
            match r {
                Ok(task) => spec_task_from_row(row.task_id, row.values@) == Ok::<
                    TaskView,
                    ErrorView,
                >(task@),
                Err(e) => spec_task_from_row(row.task_id, row.values@) == Err::<
                    TaskView,
                    ErrorView,
                >(e@),
            },
    {
        let id = match TaskId::try_from(row.task_id) {
            Ok(id) => id,
            Err(e) => {
                return Err(e);
            },
        };
        let priority = match Priority::from_u32(row.values.priority) {
            Some(priority) => priority,
            None => {
                return Err(YabuError::UnknownPriorityCode(row.values.priority));
            },
        };
        let due_date = match row.values.due_date {
            Some(seconds) => match Timestamp::from_unix_timestamp(seconds) {
                Some(due) => Some(due),
                None => {
                    return Err(YabuError::DueDateOutOfRange(seconds));
                },
            },
            None => None,
        };
        Ok(Task::new(Some(id), row.values.complete, row.values.description, priority, due_date))
    }
}

} // verus!
