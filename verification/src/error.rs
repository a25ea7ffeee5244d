//! What can go wrong, on the wire and off it.

use crate::task::TaskId;
use crate::text::{decimal, decimal_text, signed_decimal, signed_decimal_text};
use vstd::prelude::*;
use vstd::string::*;

verus! {

/// Failures that one side reports to the other inside a response.
#[derive(Debug, PartialEq, Eq)]
pub enum YabuRpcError {
    /// No task has this id.
    TaskDoesntExist(TaskId),
    /// The text names no priority.
    UnknownPriority(String),
}

/// Mathematical value of a [`YabuRpcError`].
pub ghost enum RpcErrorView {
    TaskDoesntExist(u32),
    UnknownPriority(Seq<char>),
}

impl View for YabuRpcError {
    type V = RpcErrorView;

    open spec fn view(&self) -> RpcErrorView {
        match *self {
            YabuRpcError::TaskDoesntExist(id) => RpcErrorView::TaskDoesntExist(id@),
            YabuRpcError::UnknownPriority(text) => RpcErrorView::UnknownPriority(text@),
        }
    }
}

impl Clone for YabuRpcError {
    fn clone(&self) -> (r: Self)
        ensures
            r@ == self@,
    {
        match self {
            YabuRpcError::TaskDoesntExist(id) => YabuRpcError::TaskDoesntExist(*id),
            YabuRpcError::UnknownPriority(text) => YabuRpcError::UnknownPriority(text.clone()),
        }
    }
}

/// Failures that stay on the side where they happen.
#[derive(Debug, PartialEq, Eq)]
pub enum YabuError {
    /// A task id cannot be 0.
    TaskIdZero,
    /// The id of a task was asked for that has none yet.
    TaskHasNoId,
    /// No task has this id.
    TaskDoesntExist(TaskId),
    /// The text names no priority.
    UnknownPriority(String),
    /// The number stands for no priority.
    UnknownPriorityCode(u32),
    /// The count of seconds names no date that a task can be due.
    DueDateOutOfRange(i64),
    /// The server URL names no host.
    UrlHasNoHost(String),
    /// The host of the server URL has no address.
    DnsLookupFailed(String),
    /// A payload of this many bytes does not fit a frame.
    PayloadTooLarge(usize),
    /// The peer closed the stream between two frames.
    ConnectionClosed,
    /// The stream ended inside a frame.
    Truncated,
    /// A payload that is no JSON, or no message.
    MalformedMessage,
    /// A value whose JSON text was not written, or does not read back as the
    /// value.
    SerializationError,
    /// The store has given out every id.
    OutOfIds,
    /// Reading from the stream or writing to it failed.
    IoError,
    /// The store could not do what it was asked.
    StorageError,
    /// Something happened that the session was not waiting for.
    UnexpectedEvent,
    /// A request was sent before the answer to the last one came.
    RequestPending,
    /// A due date could not be written out.
    FormatError,
    /// The server answered with nothing where tasks were asked for.
    UnexpectedNothing,
}

/// Mathematical value of a [`YabuError`].
pub ghost enum ErrorView {
    TaskIdZero,
    TaskHasNoId,
    TaskDoesntExist(u32),
    UnknownPriority(Seq<char>),
    UnknownPriorityCode(u32),
    DueDateOutOfRange(i64),
    UrlHasNoHost(Seq<char>),
    DnsLookupFailed(Seq<char>),
    PayloadTooLarge(usize),
    ConnectionClosed,
    Truncated,
    MalformedMessage,
    SerializationError,
    OutOfIds,
    IoError,
    StorageError,
    UnexpectedEvent,
    RequestPending,
    FormatError,
    UnexpectedNothing,
}

impl View for YabuError {
    type V = ErrorView;

    open spec fn view(&self) -> ErrorView {
        match *self {
            YabuError::TaskIdZero => ErrorView::TaskIdZero,
            YabuError::TaskHasNoId => ErrorView::TaskHasNoId,
            YabuError::TaskDoesntExist(id) => ErrorView::TaskDoesntExist(id@),
            YabuError::UnknownPriority(text) => ErrorView::UnknownPriority(text@),
            YabuError::UnknownPriorityCode(code) => ErrorView::UnknownPriorityCode(code),
            YabuError::DueDateOutOfRange(seconds) => ErrorView::DueDateOutOfRange(seconds),
            YabuError::UrlHasNoHost(url) => ErrorView::UrlHasNoHost(url@),
            YabuError::DnsLookupFailed(url) => ErrorView::DnsLookupFailed(url@),
            YabuError::PayloadTooLarge(length) => ErrorView::PayloadTooLarge(length),
            YabuError::ConnectionClosed => ErrorView::ConnectionClosed,
            YabuError::Truncated => ErrorView::Truncated,
            YabuError::MalformedMessage => ErrorView::MalformedMessage,
            YabuError::SerializationError => ErrorView::SerializationError,
            YabuError::OutOfIds => ErrorView::OutOfIds,
            YabuError::IoError => ErrorView::IoError,
            YabuError::StorageError => ErrorView::StorageError,
            YabuError::UnexpectedEvent => ErrorView::UnexpectedEvent,
            YabuError::RequestPending => ErrorView::RequestPending,
            YabuError::FormatError => ErrorView::FormatError,
            YabuError::UnexpectedNothing => ErrorView::UnexpectedNothing,
        }
    }
}

impl RpcErrorView {
    /// No id is zero. Every [`YabuRpcError`] has such a value.
    pub open spec fn valid(self) -> bool {
        self matches RpcErrorView::TaskDoesntExist(id) ==> id != 0
    }

    /// The error as the side that received it holds it.
    pub open spec fn as_local(self) -> ErrorView {
        match self {
            RpcErrorView::TaskDoesntExist(id) => ErrorView::TaskDoesntExist(id),
            RpcErrorView::UnknownPriority(text) => ErrorView::UnknownPriority(text),
        }
    }

    /// What a user is told.
    pub open spec fn message(self) -> Seq<char> {
        match self {
            RpcErrorView::TaskDoesntExist(id) => "task "@ + decimal(id as nat)
                + " does not exist"@,
            RpcErrorView::UnknownPriority(text) => "unknown priority "@ + text,
        }
    }
}

impl YabuRpcError {
    /// Every error has a valid value.
    pub fn check_valid(&self)
        ensures
            self@.valid(),
    {
        match self {
            YabuRpcError::TaskDoesntExist(id) => {
                id.check_valid();
            },
            YabuRpcError::UnknownPriority(_) => {},
        }
    }

    /// What a user is told.
    pub fn to_string(&self) -> (text: String)
        ensures
            text@ == self@.message(),
    {
        match self {
            YabuRpcError::TaskDoesntExist(id) => String::from_str("task ").concat(
                id.to_string().as_str(),
            ).concat(" does not exist"),
            YabuRpcError::UnknownPriority(text) => String::from_str("unknown priority ").concat(
                text.as_str(),
            ),
        }
    }
}

impl ErrorView {
    /// What a user is told.
    pub open spec fn message(self) -> Seq<char> {
        match self {
            ErrorView::TaskIdZero => "task id cannot be 0"@,
            ErrorView::TaskHasNoId => "tried to get the id of a task that didn't have one"@,
            ErrorView::TaskDoesntExist(id) => RpcErrorView::TaskDoesntExist(id).message(),
            ErrorView::UnknownPriority(text) => RpcErrorView::UnknownPriority(text).message(),
            ErrorView::UnknownPriorityCode(code) => "can't convert "@ + decimal(code as nat)
                + " to a `Priority`"@,
            ErrorView::DueDateOutOfRange(seconds) => "due date "@ + signed_decimal(
                seconds as int,
            ) + " is out of range"@,
            ErrorView::UrlHasNoHost(url) => "server URL "@ + url + " has no host"@,
            ErrorView::DnsLookupFailed(url) => "no address found for "@ + url,
            ErrorView::PayloadTooLarge(length) => "payload of "@ + decimal(length as nat)
                + " bytes does not fit a frame"@,
            ErrorView::ConnectionClosed => "connection closed"@,
            ErrorView::Truncated => "stream ended inside a frame"@,
            ErrorView::MalformedMessage => "malformed message"@,
            ErrorView::SerializationError => "error while serializing a value"@,
            ErrorView::OutOfIds => "no task id is left"@,
            ErrorView::IoError => "io error"@,
            ErrorView::StorageError => "storage error"@,
            ErrorView::UnexpectedEvent => "unexpected event"@,
            ErrorView::RequestPending => "a request is pending"@,
            ErrorView::FormatError => "could not format the due date"@,
            ErrorView::UnexpectedNothing => "got `Response::Nothing` from the server"@,
        }
    }
}

impl YabuError {
    /// An error that came in a response, as the side that received it holds
    /// it.
    pub fn from_rpc(error: YabuRpcError) -> (r: YabuError)
        ensures
            r@ == error@.as_local(),
    {
        match error {
            YabuRpcError::TaskDoesntExist(id) => YabuError::TaskDoesntExist(id),
            YabuRpcError::UnknownPriority(text) => YabuError::UnknownPriority(text),
        }
    }

    /// What a user is told.
    pub fn to_string(&self) -> (text: String)
        ensures
            text@ == self@.message(),
    {
        match self {
            YabuError::TaskIdZero => String::from_str("task id cannot be 0"),
            YabuError::TaskHasNoId => String::from_str(
                "tried to get the id of a task that didn't have one",
            ),
            YabuError::TaskDoesntExist(id) => String::from_str("task ").concat(
                id.to_string().as_str(),
            ).concat(" does not exist"),
            YabuError::UnknownPriority(text) => String::from_str("unknown priority ").concat(
                text.as_str(),
            ),
            YabuError::UnknownPriorityCode(code) => String::from_str("can't convert ").concat(
                decimal_text(*code as u64).as_str(),
            ).concat(" to a `Priority`"),
            YabuError::DueDateOutOfRange(seconds) => String::from_str("due date ").concat(
                signed_decimal_text(*seconds).as_str(),
            ).concat(" is out of range"),
            YabuError::UrlHasNoHost(url) => String::from_str("server URL ").concat(
                url.as_str(),
            ).concat(" has no host"),
            YabuError::DnsLookupFailed(url) => String::from_str("no address found for ").concat(
                url.as_str(),
            ),
            YabuError::PayloadTooLarge(length) => String::from_str("payload of ").concat(
                decimal_text(*length as u64).as_str(),
            ).concat(" bytes does not fit a frame"),
            YabuError::ConnectionClosed => String::from_str("connection closed"),
            YabuError::Truncated => String::from_str("stream ended inside a frame"),
            YabuError::MalformedMessage => String::from_str("malformed message"),
            YabuError::SerializationError => String::from_str("error while serializing a value"),
            YabuError::OutOfIds => String::from_str("no task id is left"),
            YabuError::IoError => String::from_str("io error"),
            YabuError::StorageError => String::from_str("storage error"),
            YabuError::UnexpectedEvent => String::from_str("unexpected event"),
            YabuError::RequestPending => String::from_str("a request is pending"),
            YabuError::FormatError => String::from_str("could not format the due date"),
            YabuError::UnexpectedNothing => String::from_str(
                "got `Response::Nothing` from the server",
            ),
        }
    }
}

} // verus!
