//! The task table: what the store holds, and what each request does to it.
//!
//! [`Database`] keeps the table in memory. A store that keeps it elsewhere
//! does the same to its rows; [`serve`] says what that is.

use crate::delta::{TaskDelta, TaskDeltaView};
use crate::error::{RpcErrorView, YabuError, YabuRpcError};
use crate::message::{clone_tasks, tasks_view, Message, MessageView, Response, ResponseView};
use crate::task::{Task, TaskId, TaskView};
use vstd::prelude::*;

verus! {

/// Mathematical value of a [`Database`]: its rows in the order in which they
/// were taken in, and the id that the next row gets.
pub ghost struct DatabaseView {
    pub rows: Seq<TaskView>,
    pub next_id: int,
}

/// Whether a row has this id.
pub open spec fn is_row(row: TaskView, id: u32) -> bool {
    row.id == Some(id)
}

impl DatabaseView {
    /// Every row has an id that was given out before, later rows have larger
    /// ids, and no id was given out that 32 bits do not hold.
    pub open spec fn wf(self) -> bool {
        &&& 1 <= self.next_id <= 0x1_0000_0000
        &&& forall|i: int|
            0 <= i < self.rows.len() ==> (#[trigger] self.rows[i]).id is Some && 1
                <= self.rows[i].id->Some_0 < self.next_id
        &&& forall|i: int, j: int|
            0 <= i < j < self.rows.len() ==> (#[trigger] self.rows[i]).id->Some_0 < (
            #[trigger] self.rows[j]).id->Some_0
    }

    /// The table without rows, before any id was given out.
    pub open spec fn empty() -> DatabaseView {
        DatabaseView { rows: Seq::<TaskView>::empty(), next_id: 1 }
    }

    /// Whether a row has this id.
    pub open spec fn has(self, id: u32) -> bool {
        exists|i: int| 0 <= i < self.rows.len() && is_row(#[trigger] self.rows[i], id)
    }

    /// Where the row with this id stands, if there is one.
    pub open spec fn index_of(self, id: u32) -> int {
        choose|i: int| 0 <= i < self.rows.len() && is_row(#[trigger] self.rows[i], id)
    }

    /// The row with this id, if there is one.
    pub open spec fn get(self, id: u32) -> Option<TaskView> {
        if self.has(id) {
            Some(self.rows[self.index_of(id)])
        } else {
            None
        }
    }

    /// Whether an id is left for a new row.
    pub open spec fn has_room(self) -> bool {
        self.next_id <= u32::MAX
    }

    /// The table after a task was taken in: it stands last, under the next
    /// id, whatever id it came with.
    pub open spec fn insert(self, task: TaskView) -> DatabaseView {
        DatabaseView {
            rows: self.rows.push(TaskView { id: Some(self.next_id as u32), ..task }),
            next_id: self.next_id + 1,
        }
    }

    /// The table after the row with this id was replaced. A table without
    /// such a row stays as it is.
    pub open spec fn put(self, id: u32, task: TaskView) -> DatabaseView {
        if self.has(id) {
            DatabaseView {
                rows: self.rows.update(self.index_of(id), TaskView { id: Some(id), ..task }),
                ..self
            }
        } else {
            self
        }
    }

    /// The table after a delta went over the row with this id. A table
    /// without such a row stays as it is.
    pub open spec fn update(self, id: u32, delta: TaskDeltaView) -> DatabaseView {
        if self.has(id) {
            self.put(id, delta.apply_to(self.rows[self.index_of(id)]))
        } else {
            self
        }
    }

    /// The table after the row with this id was dropped. A table without
    /// such a row stays as it is.
    pub open spec fn remove(self, id: u32) -> DatabaseView {
        if self.has(id) {
            DatabaseView { rows: self.rows.remove(self.index_of(id)), ..self }
        } else {
            self
        }
    }
}

/// What a session asks of the store while it serves a request.
#[derive(Debug, PartialEq, Eq)]
pub enum StoreRequest {
    /// Take the task in, under a new id.
    Insert(Task),
    /// Hand out all rows.
    All,
    /// Hand out the row with this id.
    Get(TaskId),
    /// Put the task in the place of the row with this id.
    Put(TaskId, Task),
    /// Drop the row with this id.
    Delete(TaskId),
}

/// Mathematical value of a [`StoreRequest`].
pub ghost enum StoreRequestView {
    Insert(TaskView),
    All,
    Get(u32),
    Put(u32, TaskView),
    Delete(u32),
}

impl View for StoreRequest {
    type V = StoreRequestView;

    open spec fn view(&self) -> StoreRequestView {
        match *self {
            StoreRequest::Insert(task) => StoreRequestView::Insert(task@),
            StoreRequest::All => StoreRequestView::All,
            StoreRequest::Get(id) => StoreRequestView::Get(id@),
            StoreRequest::Put(id, task) => StoreRequestView::Put(id@, task@),
            StoreRequest::Delete(id) => StoreRequestView::Delete(id@),
        }
    }
}

/// What the store hands back.
#[derive(Debug, PartialEq, Eq)]
pub enum StoreReply {
    /// The table was changed as asked.
    Done,
    /// All rows.
    Rows(Vec<Task>),
    /// The row that was asked for, if there is one.
    Row(Option<Task>),
}

/// Mathematical value of a [`StoreReply`].
pub ghost enum StoreReplyView {
    Done,
    Rows(Seq<TaskView>),
    Row(Option<TaskView>),
}

impl View for StoreReply {
    type V = StoreReplyView;

    open spec fn view(&self) -> StoreReplyView {
        match *self {
            StoreReply::Done => StoreReplyView::Done,
            StoreReply::Rows(tasks) => StoreReplyView::Rows(tasks_view(tasks@)),
            StoreReply::Row(Some(task)) => StoreReplyView::Row(Some(task@)),
            StoreReply::Row(None) => StoreReplyView::Row(None),
        }
    }
}

/// What the store does when it is asked, and what it hands back. Nothing
/// where it fails: no id is left for a task that is to be taken in.
pub open spec fn store_reply(db: DatabaseView, request: StoreRequestView) -> Option<
    (DatabaseView, StoreReplyView),
> {
    match request {
        StoreRequestView::Insert(task) => if db.has_room() {
            Some((db.insert(task), StoreReplyView::Done))
        } else {
            None
        },
        StoreRequestView::All => Some((db, StoreReplyView::Rows(db.rows))),
        StoreRequestView::Get(id) => Some((db, StoreReplyView::Row(db.get(id)))),
        StoreRequestView::Put(id, task) => Some((db.put(id, task), StoreReplyView::Done)),
        StoreRequestView::Delete(id) => Some((db.remove(id), StoreReplyView::Done)),
    }
}

/// What a request does to the table, and the answer that it gets. Nothing
/// where the store fails: no id is left for a task that is to be added.
pub open spec fn serve(db: DatabaseView, message: MessageView) -> Option<
    (DatabaseView, ResponseView),
> {
    match message {
        MessageView::Add(task) => if db.has_room() {
            Some((db.insert(task), ResponseView::Nothing))
        } else {
            None
        },
        MessageView::List => Some((db, ResponseView::Tasks(db.rows))),
        MessageView::Update(id, delta) => if db.has(id) {
            Some((db.update(id, delta), ResponseView::Nothing))
        } else {
            Some((db, ResponseView::Error(RpcErrorView::TaskDoesntExist(id))))
        },
        MessageView::Remove(id) => Some((db.remove(id), ResponseView::Nothing)),
    }
}

/// In a well-formed table no two rows share an id.
pub proof fn lemma_row_is_unique(db: DatabaseView, id: u32, i: int)
    requires
        db.wf(),
        0 <= i < db.rows.len(),
        is_row(db.rows[i], id),
    ensures
        db.has(id),
        db.index_of(id) == i,
        db.get(id) == Some(db.rows[i]),
{
    let j = db.index_of(id);
    if j < i {
        assert(db.rows[j].id->Some_0 < db.rows[i].id->Some_0);
    }
    if i < j {
        assert(db.rows[i].id->Some_0 < db.rows[j].id->Some_0);
    }
}

/// An update of a task that the table does not hold is answered with the
/// error that names the id, and leaves the table as it is.
pub proof fn lemma_update_missing(db: DatabaseView, id: u32, delta: TaskDeltaView)
    requires
        !db.has(id),
    ensures
        serve(db, MessageView::Update(id, delta)) == Some(
            (db, ResponseView::Error(RpcErrorView::TaskDoesntExist(id))),
        ),
{
}

/// The removal of a task that the table does not hold is answered like any
/// other removal, and leaves the table as it is.
pub proof fn lemma_remove_missing(db: DatabaseView, id: u32)
    requires
        !db.has(id),
    ensures
        serve(db, MessageView::Remove(id)) == Some((db, ResponseView::Nothing)),
{
}

/// Every request leaves a well-formed table well-formed, and no request
/// brings back an id that was given out.
pub proof fn lemma_serve_keeps_table(db: DatabaseView, message: MessageView)
    requires
        db.wf(),
        serve(db, message) is Some,
    ensures
        serve(db, message)->Some_0.0.wf(),
        serve(db, message)->Some_0.0.next_id >= db.next_id,
{
    let after = serve(db, message)->Some_0.0;
    match message {
        MessageView::Add(task) => {
            assert forall|i: int, j: int| 0 <= i < j < after.rows.len() implies (
            #[trigger] after.rows[i]).id->Some_0 < (#[trigger] after.rows[j]).id->Some_0 by {
                if j < db.rows.len() {
                    assert(db.rows[i].id->Some_0 < db.rows[j].id->Some_0);
                } else {
                    assert(db.rows[i].id->Some_0 < db.next_id);
                }
            }
        },
        MessageView::List => {},
        MessageView::Update(id, delta) => {
            if db.has(id) {
                let at = db.index_of(id);
                assert forall|i: int, j: int| 0 <= i < j < after.rows.len() implies (
                #[trigger] after.rows[i]).id->Some_0 < (#[trigger] after.rows[j]).id->Some_0 by {
                    assert(db.rows[i].id->Some_0 < db.rows[j].id->Some_0);
                }
                assert forall|i: int| 0 <= i < after.rows.len() implies (
                #[trigger] after.rows[i]).id is Some && 1 <= after.rows[i].id->Some_0
                    < after.next_id by {
                    assert(db.rows[i].id is Some);
                }
            }
        },
        MessageView::Remove(id) => {
            if db.has(id) {
                let at = db.index_of(id);
                assert forall|i: int| 0 <= i < after.rows.len() implies (
                #[trigger] after.rows[i]).id is Some && 1 <= after.rows[i].id->Some_0
                    < after.next_id by {
                    if i < at {
                        assert(after.rows[i] == db.rows[i]);
                    } else {
                        assert(after.rows[i] == db.rows[i + 1]);
                    }
                }
                assert forall|i: int, j: int| 0 <= i < j < after.rows.len() implies (
                #[trigger] after.rows[i]).id->Some_0 < (#[trigger] after.rows[j]).id->Some_0 by {
                    let a = if i < at {
                        i
                    } else {
                        i + 1
                    };
                    let b = if j < at {
                        j
                    } else {
                        j + 1
                    };
                    assert(after.rows[i] == db.rows[a]);
                    assert(after.rows[j] == db.rows[b]);
                    assert(db.rows[a].id->Some_0 < db.rows[b].id->Some_0);
                }
            }
        },
    }
}

/// The task table, held in memory.
#[derive(Debug)]
pub struct Database {
    rows: Vec<Task>,
    next_id: u64,
}

impl View for Database {
    type V = DatabaseView;

    closed spec fn view(&self) -> DatabaseView {
        DatabaseView { rows: tasks_view(self.rows@), next_id: self.next_id as int }
    }
}

impl Database {
    #[verifier::type_invariant]
    spec fn well_formed(self) -> bool {
        self@.wf()
    }

    /// The table without rows. The first task gets the id 1.
    pub fn new() -> (db: Database)
        ensures
            db@ == DatabaseView::empty(),
            db@.wf(),
    {
        let db = Database { rows: Vec::new(), next_id: 1 };
        assert(db@.rows =~= Seq::<TaskView>::empty());
        db
    }

    /// The table without rows of a store that has given out the ids up to
    /// `last`. The next task gets the id after it.
    pub fn after(last: TaskId) -> (db: Database)
        ensures
            db@ == (DatabaseView { rows: Seq::<TaskView>::empty(), next_id: last@ + 1 }),
            db@.wf(),
    {
        let next: u64 = last.get() as u64 + 1;
        let db = Database { rows: Vec::new(), next_id: next };
        assert(db@.rows =~= Seq::<TaskView>::empty());
        db
    }

    /// Every table is well-formed.
    pub fn check_valid(&self)
        ensures
            self@.wf(),
    {
        proof {
            use_type_invariant(self);
        }
    }

    /// Hands out the rows and leaves none behind.
    fn take_rows(&mut self) -> (rows: Vec<Task>)
        ensures
            rows == old(self).rows,
            final(self).rows@.len() == 0,
            final(self).next_id == old(self).next_id,
    {
        proof {
            use_type_invariant(&*self);
        }
        let mut rows: Vec<Task> = Vec::new();
        core::mem::swap(&mut self.rows, &mut rows);
        rows
    }

    /// Takes the rows in again.
    fn put_rows(&mut self, rows: Vec<Task>)
        requires
            old(self).rows@.len() == 0,
            (DatabaseView { rows: tasks_view(rows@), next_id: old(self).next_id as int }).wf(),
        ensures
            final(self).rows == rows,
            final(self).next_id == old(self).next_id,
    {
        let mut rows = rows;
        core::mem::swap(&mut self.rows, &mut rows);
    }

    /// Where the row with this id stands.
    fn find(&self, id: TaskId) -> (r: Option<usize>)
        ensures
            self@.wf(),
            match r {
                Some(i) => self@.has(id@) && self@.index_of(id@) == i && i < self.rows.len(),
                None => !self@.has(id@),
            },
    {
        proof {
            use_type_invariant(self);
        }
        let wanted = id.get();
        let mut i: usize = 0;
        while i < self.rows.len()
            invariant
                i <= self.rows.len(),
                wanted == id@,
                self@.wf(),
                forall|j: int| 0 <= j < i ==> !is_row(#[trigger] self@.rows[j], wanted),
            decreases self.rows.len() - i,
        {
            let found = match self.rows[i].id {
                Some(row_id) => row_id.get() == wanted,
                None => false,
            };
            assert(found == is_row(self@.rows[i as int], wanted));
            if found {
                proof {
                    lemma_row_is_unique(self@, wanted, i as int);
                }
                return Some(i);
            }
            i += 1;
        }
        None
    }

    /// Takes a task in. It stands last, under an id that no task had before;
    /// the id that it came with does not count.
    pub fn add_task(&mut self, task: Task) -> (r: Result<TaskId, YabuError>)
        ensures
            old(self)@.has_room() ==> r is Ok && r->Ok_0@ == old(self)@.next_id && final(self)@
                == old(self)@.insert(task@),
            !old(self)@.has_room() ==> r == Err::<TaskId, YabuError>(YabuError::OutOfIds)
                && final(self)@ == old(self)@,
    {
        proof {
            use_type_invariant(&*self);
        }
        if self.next_id > 0xffff_ffff {
            return Err(YabuError::OutOfIds);
        }
        let id = match TaskId::try_from(self.next_id as u32) {
            Ok(id) => id,
            Err(_) => {
                return Err(YabuError::OutOfIds);
            },
        };
        let ghost before = self@;
        let row = Task {
            id: Some(id),
            complete: task.complete,
            description: task.description,
            priority: task.priority,
            due_date: task.due_date,
        };
        proof {
            lemma_serve_keeps_table(before, MessageView::Add(task@));
        }
        self.next_id = self.next_id + 1;
        let mut rows = self.take_rows();
        rows.push(row);
        assert(tasks_view(rows@) =~= before.insert(task@).rows);
        self.put_rows(rows);
        Ok(id)
    }

    /// All rows, in the order in which they were taken in.
    pub fn all_tasks(&self) -> (tasks: Vec<Task>)
        ensures
            tasks_view(tasks@) == self@.rows,
    {
        clone_tasks(&self.rows)
    }

    /// The row with this id, if there is one.
    pub fn get_task(&self, task_id: TaskId) -> (r: Option<Task>)
        ensures
            match r {
                Some(task) => self@.get(task_id@) == Some(task@),
                None => self@.get(task_id@) is None,
            },
    {
        match self.find(task_id) {
            Some(i) => Some(self.rows[i].clone()),
            None => None,
        }
    }

    /// Puts a task in the place of the row with this id. A table without
    /// such a row stays as it is.
    pub fn put_task(&mut self, task_id: TaskId, task: Task)
        ensures
            final(self)@ == old(self)@.put(task_id@, task@),
    {
        let ghost before = self@;
        match self.find(task_id) {
            Some(i) => {
                let row = Task {
                    id: Some(task_id),
                    complete: task.complete,
                    description: task.description,
                    priority: task.priority,
                    due_date: task.due_date,
                };
                proof {
                    let after = before.put(task_id@, task@);
                    assert forall|a: int, b: int| 0 <= a < b < after.rows.len() implies (
                    #[trigger] after.rows[a]).id->Some_0 < (#[trigger] after.rows[b]).id->Some_0 by {
                        assert(before.rows[a].id->Some_0 < before.rows[b].id->Some_0);
                    }
                    assert forall|a: int| 0 <= a < after.rows.len() implies (
                    #[trigger] after.rows[a]).id is Some && 1 <= after.rows[a].id->Some_0
                        < after.next_id by {
                        assert(before.rows[a].id is Some);
                    }
                    assert(tasks_view(self.rows@.update(i as int, row)) =~= after.rows);
                }
                let mut rows = self.take_rows();
                rows.set(i, row);
                self.put_rows(rows);
            },
            None => {},
        }
    }

    /// Lets a delta go over the row with this id. Where there is no such row,
    /// the answer says so and the table stays as it is.
    pub fn update_task(&mut self, task_id: TaskId, task_delta: TaskDelta) -> (response: Response)
        ensures
            serve(old(self)@, MessageView::Update(task_id@, task_delta@)) == Some(
                (final(self)@, response@),
            ),
    {
        match self.get_task(task_id) {
            Some(task) => {
                let mut task = task;
                task.apply_delta(task_delta);
                self.put_task(task_id, task);
                Response::Nothing
            },
            None => Response::Error(YabuRpcError::TaskDoesntExist(task_id)),
        }
    }

    /// Drops the row with this id. A table without such a row stays as it
    /// is.
    pub fn remove_task(&mut self, task_id: TaskId)
        ensures
            final(self)@ == old(self)@.remove(task_id@),
    {
        let ghost before = self@;
        match self.find(task_id) {
            Some(i) => {
                proof {
                    lemma_serve_keeps_table(before, MessageView::Remove(task_id@));
                    assert(tasks_view(self.rows@.remove(i as int)) =~= before.rows.remove(
                        i as int,
                    ));
                }
                let mut rows = self.take_rows();
                let _ = rows.remove(i);
                self.put_rows(rows);
            },
            None => {},
        }
    }

    /// Does what a session asks.
    pub fn execute(&mut self, request: StoreRequest) -> (r: Result<StoreReply, YabuError>)
        ensures
            match r {
                Ok(reply) => store_reply(old(self)@, request@) == Some((final(self)@, reply@)),
                Err(e) => store_reply(old(self)@, request@) is None && e == YabuError::OutOfIds
                    && final(self)@ == old(self)@,
            },
    {
        match request {
            StoreRequest::Insert(task) => match self.add_task(task) {
                Ok(_) => Ok(StoreReply::Done),
                Err(e) => Err(e),
            },
            StoreRequest::All => Ok(StoreReply::Rows(self.all_tasks())),
            StoreRequest::Get(id) => Ok(StoreReply::Row(self.get_task(id))),
            StoreRequest::Put(id, task) => {
                self.put_task(id, task);
                Ok(StoreReply::Done)
            },
            StoreRequest::Delete(id) => {
                self.remove_task(id);
                Ok(StoreReply::Done)
            },
        }
    }

    /// Serves one request.
    pub fn handle(&mut self, message: Message) -> (r: Result<Response, YabuError>)
        ensures
            match r {
                Ok(response) => serve(old(self)@, message@) == Some((final(self)@, response@)),
                Err(e) => serve(old(self)@, message@) is None && e == YabuError::OutOfIds
                    && final(self)@ == old(self)@,
            },
    {
        match message {
            Message::Add(task) => match self.add_task(task) {
                Ok(_) => Ok(Response::Nothing),
                Err(e) => Err(e),
            },
            Message::List => Ok(Response::Tasks(self.all_tasks())),
            Message::Update(id, delta) => Ok(self.update_task(id, delta)),
            Message::Remove(id) => {
                self.remove_task(id);
                Ok(Response::Nothing)
            },
        }
    }
}

} // verus!
