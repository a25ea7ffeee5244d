//! Whether two values are the same, told from their parts.

use crate::delta::{Delta, TaskDelta};
use crate::error::YabuRpcError;
use crate::message::{tasks_view, Message, Response};
use crate::task::{Priority, Task, TaskId};
use crate::timestamp::Timestamp;
use vstd::prelude::*;

verus! {

/// Whether two ids are the same.
pub fn same_id(a: &TaskId, b: &TaskId) -> (same: bool)
    ensures
        same == (a@ == b@),
{
    a.get() == b.get()
}

/// Whether two priorities are the same.
pub fn same_priority(a: &Priority, b: &Priority) -> (same: bool)
    ensures
        same == (*a == *b),
{
    a.to_u32() == b.to_u32()
}

/// Whether two timestamps are the same.
pub fn same_timestamp(a: &Timestamp, b: &Timestamp) -> (same: bool)
    ensures
        same == (a@ == b@),
{
    let p = a.parts();
    let q = b.parts();
    p.0 == q.0 && p.1 == q.1 && p.2 == q.2 && p.3 == q.3 && p.4 == q.4 && p.5 == q.5 && p.6
        == q.6 && p.7 == q.7 && p.8 == q.8
}

/// Whether two due dates are the same.
pub fn same_due_date(a: &Option<Timestamp>, b: &Option<Timestamp>) -> (same: bool)
    ensures
        same == (match (*a, *b) {
            (Some(x), Some(y)) => x@ == y@,
            (None, None) => true,
            _ => false,
        }),
{
    match (a, b) {
        (Some(x), Some(y)) => same_timestamp(x, y),
        (None, None) => true,
        _ => false,
    }
}

/// Whether two tasks are the same.
pub fn same_task(a: &Task, b: &Task) -> (same: bool)
    ensures
        same == (a@ == b@),
{
    let ids = match (&a.id, &b.id) {
        (Some(x), Some(y)) => same_id(x, y),
        (None, None) => true,
        _ => false,
    };
    ids && a.complete == b.complete && a.description == b.description && same_priority(
        &a.priority,
        &b.priority,
    ) && same_due_date(&a.due_date, &b.due_date)
}

/// Whether two task deltas are the same.
pub fn same_task_delta(a: &TaskDelta, b: &TaskDelta) -> (same: bool)
    ensures
        same == (a@ == b@),
{
    let complete = match (&a.complete, &b.complete) {
        (Delta::Unchanged, Delta::Unchanged) => true,
        (Delta::Changed(x), Delta::Changed(y)) => *x == *y,
        _ => false,
    };
    let description = match (&a.description, &b.description) {
        (Delta::Unchanged, Delta::Unchanged) => true,
        (Delta::Changed(x), Delta::Changed(y)) => *x == *y,
        _ => false,
    };
    let priority = match (&a.priority, &b.priority) {
        (Delta::Unchanged, Delta::Unchanged) => true,
        (Delta::Changed(x), Delta::Changed(y)) => same_priority(x, y),
        _ => false,
    };
    let due_date = match (&a.due_date, &b.due_date) {
        (Delta::Unchanged, Delta::Unchanged) => true,
        (Delta::Changed(x), Delta::Changed(y)) => same_due_date(x, y),
        _ => false,
    };
    complete && description && priority && due_date
}

/// Whether two requests are the same.
pub fn same_message(a: &Message, b: &Message) -> (same: bool)
    ensures
        same == (a@ == b@),
{
    match (a, b) {
        (Message::Add(x), Message::Add(y)) => same_task(x, y),
        (Message::List, Message::List) => true,
        (Message::Update(i, x), Message::Update(j, y)) => same_id(i, j) && same_task_delta(x, y),
        (Message::Remove(i), Message::Remove(j)) => same_id(i, j),
        _ => false,
    }
}

/// Whether two errors are the same.
pub fn same_rpc_error(a: &YabuRpcError, b: &YabuRpcError) -> (same: bool)
    ensures
        same == (a@ == b@),
{
    match (a, b) {
        (YabuRpcError::TaskDoesntExist(i), YabuRpcError::TaskDoesntExist(j)) => same_id(i, j),
        (YabuRpcError::UnknownPriority(x), YabuRpcError::UnknownPriority(y)) => *x == *y,
        _ => false,
    }
}

/// Whether two lists of tasks are the same.
pub fn same_tasks(a: &Vec<Task>, b: &Vec<Task>) -> (same: bool)
    ensures
        same == (tasks_view(a@) == tasks_view(b@)),
{
    if a.len() != b.len() {
        assert(tasks_view(a@).len() != tasks_view(b@).len());
        return false;
    }
    let mut i: usize = 0;
    while i < a.len()
        invariant
            i <= a.len(),
            a.len() == b.len(),
            forall|j: int| 0 <= j < i ==> a[j]@ == b[j]@,
        decreases a.len() - i,
    {
        if !same_task(&a[i], &b[i]) {
            assert(tasks_view(a@)[i as int] != tasks_view(b@)[i as int]);
            return false;
        }
        i += 1;
    }
    assert(tasks_view(a@) =~= tasks_view(b@));
    true
}

/// Whether two answers are the same.
pub fn same_response(a: &Response, b: &Response) -> (same: bool)
    ensures
        same == (a@ == b@),
{
    match (a, b) {
        (Response::Nothing, Response::Nothing) => true,
        (Response::Tasks(x), Response::Tasks(y)) => same_tasks(x, y),
        (Response::Error(x), Response::Error(y)) => same_rpc_error(x, y),
        _ => false,
    }
}

} // verus!
