//! What a client asks of the task store, and what the store answers.

use crate::delta::{TaskDelta, TaskDeltaView};
use crate::error::{RpcErrorView, YabuRpcError};
use crate::task::{Task, TaskId, TaskView};
use vstd::prelude::*;

verus! {

/// A request.
#[derive(Debug, PartialEq, Eq)]
pub enum Message {
    /// Take the task in. The store gives it an id.
    Add(Task),
    /// Send all tasks.
    List,
    /// Let the delta go over the task with this id.
    Update(TaskId, TaskDelta),
    /// Drop the task with this id.
    Remove(TaskId),
}

/// Mathematical value of a [`Message`].
pub ghost enum MessageView {
    Add(TaskView),
    List,
    Update(u32, TaskDeltaView),
    Remove(u32),
}

impl View for Message {
    type V = MessageView;

    open spec fn view(&self) -> MessageView {
        match *self {
            Message::Add(task) => MessageView::Add(task@),
            Message::List => MessageView::List,
            Message::Update(id, delta) => MessageView::Update(id@, delta@),
            Message::Remove(id) => MessageView::Remove(id@),
        }
    }
}

impl MessageView {
    /// No id is zero and every due date exists. Every [`Message`] has such a
    /// value.
    pub open spec fn valid(self) -> bool {
        match self {
            MessageView::Add(task) => task.valid(),
            MessageView::List => true,
            MessageView::Update(id, delta) => id != 0 && delta.valid(),
            MessageView::Remove(id) => id != 0,
        }
    }
}

impl Clone for Message {
    fn clone(&self) -> (r: Self)
        ensures
            r@ == self@,
    {
        match self {
            Message::Add(task) => Message::Add(task.clone()),
            Message::List => Message::List,
            Message::Update(id, delta) => Message::Update(*id, delta.clone()),
            Message::Remove(id) => Message::Remove(*id),
        }
    }
}

impl Message {
    /// Every message has a valid value.
    pub fn check_valid(&self)
        ensures
            self@.valid(),
    {
        match self {
            Message::Add(task) => {
                task.check_valid();
            },
            Message::List => {},
            Message::Update(id, delta) => {
                id.check_valid();
                delta.check_valid();
            },
            Message::Remove(id) => {
                id.check_valid();
            },
        }
    }
}

/// An answer. Every request gets exactly one.
#[derive(Debug, PartialEq, Eq)]
pub enum Response {
    /// Done; there is nothing to tell.
    Nothing,
    /// The tasks, in the order in which the store holds them.
    Tasks(Vec<Task>),
    /// The request could not be served, for a reason that the client can act
    /// on.
    Error(YabuRpcError),
}

/// Mathematical value of a [`Response`].
pub ghost enum ResponseView {
    Nothing,
    Tasks(Seq<TaskView>),
    Error(RpcErrorView),
}

/// The values of a list of tasks.
pub open spec fn tasks_view(tasks: Seq<Task>) -> Seq<TaskView> {
    tasks.map_values(|task: Task| task@)
}

impl View for Response {
    type V = ResponseView;

    open spec fn view(&self) -> ResponseView {
        match *self {
            Response::Nothing => ResponseView::Nothing,
            Response::Tasks(tasks) => ResponseView::Tasks(tasks_view(tasks@)),
            Response::Error(error) => ResponseView::Error(error@),
        }
    }
}

impl ResponseView {
    /// No id is zero and every due date exists. Every [`Response`] has such
    /// a value.
    pub open spec fn valid(self) -> bool {
        match self {
            ResponseView::Nothing => true,
            ResponseView::Tasks(tasks) => forall|i: int|
                0 <= i < tasks.len() ==> (#[trigger] tasks[i]).valid(),
            ResponseView::Error(error) => error.valid(),
        }
    }
}

/// A copy of a list of tasks.
pub fn clone_tasks(tasks: &Vec<Task>) -> (copy: Vec<Task>)
    ensures
        tasks_view(copy@) == tasks_view(tasks@),
{
    let mut copy: Vec<Task> = Vec::new();
    let mut i: usize = 0;
    while i < tasks.len()
        invariant
            i <= tasks.len(),
            copy.len() == i,
            forall|j: int| 0 <= j < i ==> copy[j]@ == tasks[j]@,
        decreases tasks.len() - i,
    {
        copy.push(tasks[i].clone());
        i += 1;
    }
    assert(tasks_view(copy@) =~= tasks_view(tasks@));
    copy
}

impl Clone for Response {
    fn clone(&self) -> (r: Self)
        ensures
            r@ == self@,
    {
        match self {
            Response::Nothing => Response::Nothing,
            Response::Tasks(tasks) => Response::Tasks(clone_tasks(tasks)),
            Response::Error(error) => Response::Error(error.clone()),
        }
    }
}

impl Response {
    /// Every response has a valid value.
    pub fn check_valid(&self)
        ensures
            self@.valid(),
    {
        match self {
            Response::Nothing => {},
            Response::Tasks(tasks) => {
                let mut i: usize = 0;
                while i < tasks.len()
                    invariant
                        i <= tasks.len(),
                        forall|j: int| 0 <= j < i ==> (#[trigger] tasks[j])@.valid(),
                    decreases tasks.len() - i,
                {
                    tasks[i].check_valid();
                    i += 1;
                }
                assert forall|j: int| 0 <= j < tasks_view(tasks@).len() implies (
                #[trigger] tasks_view(tasks@)[j]).valid() by {
                    assert(tasks[j]@.valid());
                }
            },
            Response::Error(error) => {
                error.check_valid();
            },
        }
    }
}

} // verus!
