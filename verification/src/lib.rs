//! Task synchronisation protocol: framed JSON messages, partial updates and
//! the request/response rules of a personal task store.
//!
//! A client and a server talk over one stream. Every request and every
//! answer is a frame: two bytes of length, low byte first, and then that many
//! bytes of JSON. The server answers each request with exactly one answer and
//! goes on until the client closes the stream.
//!
//! - [`task`], [`timestamp`], [`delta`]: tasks, due dates, and the deltas
//!   that change some fields of a task and leave the others alone.
//! - [`message`], [`error`]: requests, answers, and what can go wrong.
//! - [`json`], [`wire`], [`frame`], [`codec`]: the JSON shape of every value,
//!   frames, and the bytes on the stream.
//! - [`store`], [`row`]: the task table and what each request does to it.
//! - [`session`], [`connection`]: one connection as the server and as the
//!   client see it, and where the server lives.
//! - [`args`], [`datetime`], [`site`], [`text`]: what the command line and
//!   the web page make of all this.
//!
//! Nothing here touches a socket, a file or a clock: the sessions are told
//! what happened and say what is to be done next.

pub mod args;
pub mod codec;
pub mod connection;
pub mod datetime;
pub mod delta;
pub mod error;
pub mod frame;
pub mod json;
pub mod message;
pub mod row;
pub mod same;
pub mod session;
pub mod site;
pub mod store;
pub mod task;
pub mod text;
pub mod timestamp;
pub mod wire;

pub use connection::{ClientConnection, ServerUrl, DEFAULT_SERVER_PORT, URL_SCHEME};
pub use delta::{Delta, TaskDelta};
pub use error::{YabuError, YabuRpcError};
pub use message::{Message, Response};
pub use session::{ServerAction, ServerEvent, ServerSession};
pub use store::Database;
pub use task::{Priority, Task, TaskId};
pub use timestamp::Timestamp;
