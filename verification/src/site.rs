//! What the web front end makes of the server's answers.

use crate::datetime::DATE_TIME_FORMAT;
use crate::error::{ErrorView, YabuError};
use crate::json::{json_string, value_view, JsonView};
use crate::message::{tasks_view, Response, ResponseView};
use crate::task::{Task, TaskView};
use crate::timestamp::{display_text, Timestamp};
use crate::wire::json_timestamp;
use vstd::prelude::*;

verus! {

/// The tasks that the index page shows: those of the answer to a request for
/// the list. Any other answer is an error.
pub open spec fn spec_index(response: ResponseView) -> Result<Seq<TaskView>, ErrorView> {
    match response {
        ResponseView::Tasks(tasks) => Ok(tasks),
        ResponseView::Error(error) => Err(error.as_local()),
        ResponseView::Nothing => Err(ErrorView::UnexpectedNothing),
    }
}

/// The tasks that the index page shows.
pub fn index(response: Response) -> (r: Result<Vec<Task>, YabuError>)
    ensures
        match r {
            Ok(tasks) => spec_index(response@) == Ok::<Seq<TaskView>, ErrorView>(
                tasks_view(tasks@),
            ),
            Err(e) => spec_index(response@) == Err::<Seq<TaskView>, ErrorView>(e@),
        },
{
    match response {
        Response::Tasks(tasks) => Ok(tasks),
        Response::Error(error) => Err(YabuError::from_rpc(error)),
        Response::Nothing => Err(YabuError::UnexpectedNothing),
    }
}

/// What the page shows for a due date: the text of the timestamp that the
/// tree is, as a JSON string. A tree that is no timestamp is malformed; a
/// timestamp that cannot be written out is a format error.
pub open spec fn spec_date_time(tree: JsonView) -> Result<JsonView, ErrorView> {
    match json_timestamp(tree) {
        Some(t) => match display_text(t, DATE_TIME_FORMAT@) {
            Some(text) => Ok(JsonView::Str(text)),
            None => Err(ErrorView::FormatError),
        },
        None => Err(ErrorView::MalformedMessage),
    }
}

/// Turns the tree of a due date into the text that the page shows.
pub fn date_time(value: &serde_json::Value) -> (r: Result<serde_json::Value, YabuError>)
    ensures
        match r {
            Ok(shown) => spec_date_time(value_view(*value)) == Ok::<JsonView, ErrorView>(
                value_view(shown),
            ),
            Err(e) => spec_date_time(value_view(*value)) == Err::<JsonView, ErrorView>(e@),
        },
{
    match Timestamp::from_json(value) {
        Some(t) => match t.format() {
            Some(text) => Ok(json_string(text)),
            None => Err(YabuError::FormatError),
        },
        None => Err(YabuError::MalformedMessage),
    }
}

} // verus!
