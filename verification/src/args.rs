//! What a user asks for on the command line, and the request that it
//! becomes.

use crate::connection::ServerUrl;
use crate::datetime::DATE_TIME_FORMAT;
use crate::delta::{Delta, TaskDelta};
use crate::error::{ErrorView, YabuError};
use crate::message::{tasks_view, Message, MessageView, Response, ResponseView};
use crate::task::{Priority, Task, TaskId, TaskView};
use crate::text::decimal;
use crate::timestamp::{display_text, Timestamp};
use vstd::prelude::*;
use vstd::string::*;

verus! {

/// What is said when the list is empty.
pub const NO_TASKS: &'static str = "you have no tasks; use `yabu add [description]` to add one";

/// Add a task.
#[derive(Debug, PartialEq, Eq)]
pub struct Add {
    pub priority: Priority,
    pub due_date: Option<Timestamp>,
    pub description: String,
}

/// List all tasks.
#[derive(Debug, PartialEq, Eq)]
pub struct List {}

/// Change a task.
#[derive(Debug, PartialEq, Eq)]
pub struct Update {
    pub completed: Delta<bool>,
    pub priority: Delta<Priority>,
    pub due_date: Delta<Option<Timestamp>>,
    pub description: Delta<String>,
    pub task_id: TaskId,
}

/// Remove a task.
#[derive(Debug, PartialEq, Eq)]
pub struct Remove {
    pub task_id: TaskId,
}

/// What the user asks for.
#[derive(Debug, PartialEq, Eq)]
pub enum Subcommand {
    Add(Add),
    List(List),
    Update(Update),
    Remove(Remove),
}

/// The command line of the client.
pub struct Args {
    /// The server to talk to.
    pub server: ServerUrl,
    pub subcommand: Subcommand,
}

/// What a user's text does to a field: nothing where it is empty, else it
/// sets the value that the text was read as.
pub open spec fn spec_delta_from_str<T>(text: Seq<char>, read: Result<T, String>) -> Result<
    Delta<T>,
    String,
> {
    if text.len() == 0 {
        Ok(Delta::Unchanged)
    } else {
        match read {
            Ok(value) => Ok(Delta::Changed(value)),
            Err(e) => Err(e),
        }
    }
}

/// Reads what a user's text does to a field, given the value that the text
/// was read as.
pub fn delta_from_str<T>(s: &str, read: Result<T, String>) -> (r: Result<Delta<T>, String>)
    ensures
        r == spec_delta_from_str(s@, read),
{
    if s.unicode_len() == 0 {
        Ok(Delta::Unchanged)
    } else {
        match read {
            Ok(value) => Ok(Delta::Changed(value)),
            Err(e) => Err(e),
        }
    }
}

impl Subcommand {
    /// The request that the user's wish becomes. A task that is added is not
    /// complete and has no id yet.
    pub open spec fn spec_message(self) -> MessageView {
        match self {
            Subcommand::Add(add) => MessageView::Add(
                TaskView {
                    id: None,
                    complete: false,
                    description: add.description@,
                    priority: add.priority,
                    due_date: match add.due_date {
                        Some(due) => Some(due@),
                        None => None,
                    },
                },
            ),
            Subcommand::List(_) => MessageView::List,
            Subcommand::Update(update) => MessageView::Update(
                update.task_id@,
                (TaskDelta {
                    complete: update.completed,
                    description: update.description,
                    priority: update.priority,
                    due_date: update.due_date,
                })@,
            ),
            Subcommand::Remove(remove) => MessageView::Remove(remove.task_id@),
        }
    }

    /// The request that the user's wish becomes.
    pub fn into_message(self) -> (message: Message)
        ensures
            message@ == self.spec_message(),
    {
        match self {
            Subcommand::Add(add) => Message::Add(
                Task::new(None, false, add.description, add.priority, add.due_date),
            ),
            Subcommand::List(_) => Message::List,
            Subcommand::Update(update) => Message::Update(
                update.task_id,
                TaskDelta {
                    complete: update.completed,
                    description: update.description,
                    priority: update.priority,
                    due_date: update.due_date,
                },
            ),
            Subcommand::Remove(remove) => Message::Remove(remove.task_id),
        }
    }
}

/// How a priority stands out in the list.
#[derive(Clone, Copy, Debug, PartialEq, Eq)]
pub enum Accent {
    Plain,
    Blue,
    DarkMagenta,
    Yellow,
    BoldRed,
}

/// How a priority stands out in the list.
pub open spec fn spec_accent(priority: Priority) -> Accent {
    match priority {
        Priority::Lowest => Accent::Plain,
        Priority::Low => Accent::Blue,
        Priority::Medium => Accent::DarkMagenta,
        Priority::High => Accent::Yellow,
        Priority::Critical => Accent::BoldRed,
    }
}

/// One line of the list of tasks.
#[derive(Debug, PartialEq, Eq)]
pub struct TableRow {
    /// The id in decimal digits.
    pub task: String,
    /// `X` for a task that is complete, a blank for one that is not.
    pub fin: String,
    pub description: String,
    /// Whether the description is crossed out.
    pub crossed_out: bool,
    /// The priority by its small-letter name.
    pub priority: String,
    pub accent: Accent,
    /// The due date as users read it; empty where there is none.
    pub due_date: String,
}

/// Mathematical value of a [`TableRow`].
pub ghost struct TableRowView {
    pub task: Seq<char>,
    pub fin: Seq<char>,
    pub description: Seq<char>,
    pub crossed_out: bool,
    pub priority: Seq<char>,
    pub accent: Accent,
    pub due_date: Seq<char>,
}

impl View for TableRow {
    type V = TableRowView;

    open spec fn view(&self) -> TableRowView {
        TableRowView {
            task: self.task@,
            fin: self.fin@,
            description: self.description@,
            crossed_out: self.crossed_out,
            priority: self.priority@,
            accent: self.accent,
            due_date: self.due_date@,
        }
    }
}

/// The line that a task is shown as. A due date that cannot be written out
/// and a task without an id have no line; the due date is looked at first.
pub open spec fn spec_table_row(task: TaskView) -> Result<TableRowView, ErrorView> {
    if task.due_date is Some && display_text(task.due_date->Some_0, DATE_TIME_FORMAT@) is None {
        Err(ErrorView::FormatError)
    } else if task.id is None {
        Err(ErrorView::TaskHasNoId)
    } else {
        Ok(
            TableRowView {
                task: decimal(task.id->Some_0 as nat),
                fin: if task.complete {
                    "X"@
                } else {
                    " "@
                },
                description: task.description,
                crossed_out: task.complete,
                priority: task.priority.spec_name(),
                accent: spec_accent(task.priority),
                due_date: match task.due_date {
                    Some(due) => display_text(due, DATE_TIME_FORMAT@)->Some_0,
                    None => ""@,
                },
            },
        )
    }
}

/// The line that a task is shown as.
pub fn table_row(task: &Task) -> (r: Result<TableRow, YabuError>)
    ensures
        match r {
            Ok(row) => spec_table_row(task@) == Ok::<TableRowView, ErrorView>(row@),
            Err(e) => spec_table_row(task@) == Err::<TableRowView, ErrorView>(e@),
        },
{
    let due_date = match &task.due_date {
        Some(due) => match due.format() {
            Some(text) => text,
            None => {
                return Err(YabuError::FormatError);
            },
        },
        None => String::from_str(""),
    };
    let id = match task.id_or_error() {
        Ok(id) => id,
        Err(e) => {
            return Err(e);
        },
    };
    let accent = match task.priority {
        Priority::Lowest => Accent::Plain,
        Priority::Low => Accent::Blue,
        Priority::Medium => Accent::DarkMagenta,
        Priority::High => Accent::Yellow,
        Priority::Critical => Accent::BoldRed,
    };
    Ok(
        TableRow {
            task: id.to_string(),
            fin: String::from_str(
                if task.complete {
                    "X"
                } else {
                    " "
                },
            ),
            description: task.description.clone(),
            crossed_out: task.complete,
            priority: String::from_str(task.priority.name()),
            accent,
            due_date,
        },
    )
}

/// What the client shows for an answer.
#[derive(Debug, PartialEq, Eq)]
pub enum Output {
    /// Nothing at all.
    Silent,
    /// The words for an empty list.
    NoTasks,
    /// The list, one line for each task.
    Table(Vec<TableRow>),
}

/// Mathematical value of an [`Output`].
pub ghost enum OutputView {
    Silent,
    NoTasks,
    Table(Seq<TableRowView>),
}

/// The values of the lines of a list.
pub open spec fn rows_view(rows: Seq<TableRow>) -> Seq<TableRowView> {
    rows.map_values(|row: TableRow| row@)
}

impl View for Output {
    type V = OutputView;

    open spec fn view(&self) -> OutputView {
        match *self {
            Output::Silent => OutputView::Silent,
            Output::NoTasks => OutputView::NoTasks,
            Output::Table(rows) => OutputView::Table(rows_view(rows@)),
        }
    }
}

/// Whether `at` is the place of the first task that has no line.
pub open spec fn is_first_without_line(tasks: Seq<TaskView>, at: int) -> bool {
    &&& 0 <= at < tasks.len()
    &&& spec_table_row(tasks[at]) is Err
    &&& forall|j: int| 0 <= j < at ==> spec_table_row(#[trigger] tasks[j]) is Ok
}

/// The lines of a list of tasks, or the error of the first task that has no
/// line.
pub open spec fn spec_table(tasks: Seq<TaskView>) -> Result<Seq<TableRowView>, ErrorView> {
    if exists|at: int| is_first_without_line(tasks, at) {
        Err(spec_table_row(tasks[choose|at: int| is_first_without_line(tasks, at)])->Err_0)
    } else {
        Ok(tasks.map_values(|task: TaskView| spec_table_row(task)->Ok_0))
    }
}

/// What the client shows for an answer: nothing where there is nothing to
/// tell, the list of tasks or the words for an empty one, and for an error
/// in the answer that error.
pub open spec fn spec_present(response: ResponseView) -> Result<OutputView, ErrorView> {
    match response {
        ResponseView::Nothing => Ok(OutputView::Silent),
        ResponseView::Tasks(tasks) => if tasks.len() == 0 {
            Ok(OutputView::NoTasks)
        } else {
            match spec_table(tasks) {
                Ok(rows) => Ok(OutputView::Table(rows)),
                Err(e) => Err(e),
            }
        },
        ResponseView::Error(error) => Err(error.as_local()),
    }
}

/// The lines of a list of tasks.
pub fn table(tasks: &Vec<Task>) -> (r: Result<Vec<TableRow>, YabuError>)
    ensures
        match r {
            Ok(rows) => spec_table(tasks_view(tasks@)) == Ok::<Seq<TableRowView>, ErrorView>(
                rows_view(rows@),
            ),
            Err(e) => spec_table(tasks_view(tasks@)) == Err::<Seq<TableRowView>, ErrorView>(e@),
        },
{
    let ghost views = tasks_view(tasks@);
    let mut rows: Vec<TableRow> = Vec::new();
    let mut i: usize = 0;
    while i < tasks.len()
        invariant
            i <= tasks.len(),
            rows.len() == i,
            views == tasks_view(tasks@),
            forall|j: int|
                0 <= j < i ==> spec_table_row(#[trigger] views[j]) == Ok::<
                    TableRowView,
                    ErrorView,
                >(rows[j]@),
        decreases tasks.len() - i,
    {
        match table_row(&tasks[i]) {
            Ok(row) => {
                rows.push(row);
            },
            Err(e) => {
                proof {
                    assert(is_first_without_line(views, i as int));
                    let at = choose|at: int| is_first_without_line(views, at);
                    if at < i {
                        assert(spec_table_row(views[at]) is Ok);
                    }
                    if i < at {
                        assert(spec_table_row(views[i as int]) is Ok);
                    }
                }
                return Err(e);
            },
        }
        i += 1;
    }
    proof {
        assert forall|at: int| !is_first_without_line(views, at) by {
            if 0 <= at < views.len() {
                assert(spec_table_row(views[at]) is Ok);
            }
        }
        assert(spec_table(views)->Ok_0 =~= rows_view(rows@));
    }
    Ok(rows)
}

/// What the client shows for an answer.
pub fn present(response: Response) -> (r: Result<Output, YabuError>)
    ensures
        match r {
            Ok(output) => spec_present(response@) == Ok::<OutputView, ErrorView>(output@),
            Err(e) => spec_present(response@) == Err::<OutputView, ErrorView>(e@),
        },
{
    match response {
        Response::Nothing => Ok(Output::Silent),
        Response::Tasks(tasks) => {
            if tasks.len() == 0 {
                Ok(Output::NoTasks)
            } else {
                match table(&tasks) {
                    Ok(rows) => Ok(Output::Table(rows)),
                    Err(e) => Err(e),
                }
            }
        },
        Response::Error(error) => Err(YabuError::from_rpc(error)),
    }
}

} // verus!
