//! One connection as the server sees it: read a request, ask the store, write
//! the answer, and again, until the peer closes the stream.
//!
//! The session does no reading, writing or storing itself. It is told what
//! happened and says what is to be done next; whoever owns the socket and the
//! store does it and comes back with the outcome.

use crate::codec::{
    lemma_message_survives_the_wire, spec_decode_message, spec_message_from_payload,
    spec_write_message, spec_write_response,
};
use crate::delta::{TaskDelta, TaskDeltaView};
use crate::error::{ErrorView, RpcErrorView, YabuError, YabuRpcError};
use crate::frame::{frame_size, lemma_frame_round_trip, payload_length, prefix_length};
use crate::message::{Message, MessageView, Response, ResponseView};
use crate::store::{
    lemma_serve_keeps_table, serve, store_reply, Database, DatabaseView, StoreReply,
    StoreReplyView, StoreRequest, StoreRequestView,
};
use crate::task::{Task, TaskId, TaskView};
use crate::wire::message_json;
use vstd::prelude::*;

verus! {

/// What the session waits for from the store.
#[derive(Debug, PartialEq, Eq)]
pub enum Pending {
    /// That a new task was taken in.
    Insert,
    /// All rows.
    All,
    /// The row over which this delta is to go.
    Get(TaskId, TaskDelta),
    /// That the changed row was put back.
    Put,
    /// That a row was dropped.
    Delete,
}

/// Mathematical value of a [`Pending`].
pub ghost enum PendingView {
    Insert,
    All,
    Get(u32, TaskDeltaView),
    Put,
    Delete,
}

impl View for Pending {
    type V = PendingView;

    open spec fn view(&self) -> PendingView {
        match *self {
            Pending::Insert => PendingView::Insert,
            Pending::All => PendingView::All,
            Pending::Get(id, delta) => PendingView::Get(id@, delta@),
            Pending::Put => PendingView::Put,
            Pending::Delete => PendingView::Delete,
        }
    }
}

/// Where a session stands.
#[derive(Debug, PartialEq, Eq)]
pub enum ServerSession {
    /// Waiting for the two bytes of a frame's length.
    AwaitingLength,
    /// Waiting for a payload of this many bytes.
    AwaitingPayload(usize),
    /// Waiting for the store.
    AwaitingStore(Pending),
    /// Waiting for the answer to be written.
    Writing,
    /// The peer closed the stream between two requests.
    Closed,
    /// The session ended with a failure.
    Failed,
}

/// Mathematical value of a [`ServerSession`].
pub ghost enum SessionView {
    AwaitingLength,
    AwaitingPayload(usize),
    AwaitingStore(PendingView),
    Writing,
    Closed,
    Failed,
}

impl View for ServerSession {
    type V = SessionView;

    open spec fn view(&self) -> SessionView {
        match *self {
            ServerSession::AwaitingLength => SessionView::AwaitingLength,
            ServerSession::AwaitingPayload(n) => SessionView::AwaitingPayload(n),
            ServerSession::AwaitingStore(pending) => SessionView::AwaitingStore(pending@),
            ServerSession::Writing => SessionView::Writing,
            ServerSession::Closed => SessionView::Closed,
            ServerSession::Failed => SessionView::Failed,
        }
    }
}

/// The four stages of a session.
pub ghost enum Stage {
    AwaitingRequest,
    Dispatching,
    Closed,
    Failed,
}

impl SessionView {
    /// The stage of a session.
    pub open spec fn stage(self) -> Stage {
        match self {
            SessionView::AwaitingLength => Stage::AwaitingRequest,
            SessionView::AwaitingPayload(_) => Stage::AwaitingRequest,
            SessionView::AwaitingStore(_) => Stage::Dispatching,
            SessionView::Writing => Stage::Dispatching,
            SessionView::Closed => Stage::Closed,
            SessionView::Failed => Stage::Failed,
        }
    }
}

/// What happened since the session last said what to do.
#[derive(Debug, PartialEq, Eq)]
pub enum ServerEvent {
    /// These bytes were read: as many as were asked for, or fewer where the
    /// stream ended first.
    Bytes(Vec<u8>),
    /// The store handed this back.
    Reply(StoreReply),
    /// The answer was written.
    Written,
    /// Reading or writing failed.
    TransportFailed,
    /// The store failed.
    StoreFailed,
}

/// Mathematical value of a [`ServerEvent`].
pub ghost enum EventView {
    Bytes(Seq<u8>),
    Reply(StoreReplyView),
    Written,
    TransportFailed,
    StoreFailed,
}

impl View for ServerEvent {
    type V = EventView;

    open spec fn view(&self) -> EventView {
        match *self {
            ServerEvent::Bytes(bytes) => EventView::Bytes(bytes@),
            ServerEvent::Reply(reply) => EventView::Reply(reply@),
            ServerEvent::Written => EventView::Written,
            ServerEvent::TransportFailed => EventView::TransportFailed,
            ServerEvent::StoreFailed => EventView::StoreFailed,
        }
    }
}

/// What is to be done next.
#[derive(Debug, PartialEq, Eq)]
pub enum ServerAction {
    /// Read this many bytes from the stream, or up to its end.
    Read(usize),
    /// Ask the store.
    Ask(StoreRequest),
    /// Write these bytes to the stream.
    Write(Vec<u8>),
    /// Stop: the peer closed the stream, or the session failed.
    Finish(Result<(), YabuError>),
}

/// Mathematical value of a [`ServerAction`].
pub ghost enum ActionView {
    Read(usize),
    Ask(StoreRequestView),
    Write(Seq<u8>),
    Finish(Result<(), ErrorView>),
}

impl View for ServerAction {
    type V = ActionView;

    open spec fn view(&self) -> ActionView {
        match *self {
            ServerAction::Read(n) => ActionView::Read(n),
            ServerAction::Ask(request) => ActionView::Ask(request@),
            ServerAction::Write(bytes) => ActionView::Write(bytes@),
            ServerAction::Finish(Ok(())) => ActionView::Finish(Ok(())),
            ServerAction::Finish(Err(e)) => ActionView::Finish(Err(e@)),
        }
    }
}

/// The session fails.
pub open spec fn fails(error: ErrorView) -> (SessionView, ActionView) {
    (SessionView::Failed, ActionView::Finish(Err(error)))
}

/// The answer goes out, framed. An answer that cannot be written ends the
/// session.
pub open spec fn responds(response: ResponseView) -> (SessionView, ActionView) {
    match spec_write_response(response) {
        Ok(bytes) => (SessionView::Writing, ActionView::Write(bytes)),
        Err(e) => fails(e),
    }
}

/// What the store is asked first for a request. A task that is added goes to
/// the store without the id that it came with.
pub open spec fn dispatches(message: MessageView) -> (SessionView, ActionView) {
    match message {
        MessageView::Add(task) => (
            SessionView::AwaitingStore(PendingView::Insert),
            ActionView::Ask(StoreRequestView::Insert(TaskView { id: None, ..task })),
        ),
        MessageView::List => (
            SessionView::AwaitingStore(PendingView::All),
            ActionView::Ask(StoreRequestView::All),
        ),
        MessageView::Update(id, delta) => (
            SessionView::AwaitingStore(PendingView::Get(id, delta)),
            ActionView::Ask(StoreRequestView::Get(id)),
        ),
        MessageView::Remove(id) => (
            SessionView::AwaitingStore(PendingView::Delete),
            ActionView::Ask(StoreRequestView::Delete(id)),
        ),
    }
}

/// What the session makes of what the store handed back.
pub open spec fn continues(pending: PendingView, reply: StoreReplyView) -> (
    SessionView,
    ActionView,
) {
    match (pending, reply) {
        (PendingView::Insert, StoreReplyView::Done) => responds(ResponseView::Nothing),
        (PendingView::All, StoreReplyView::Rows(tasks)) => responds(ResponseView::Tasks(tasks)),
        (PendingView::Get(id, delta), StoreReplyView::Row(None)) => responds(
            ResponseView::Error(RpcErrorView::TaskDoesntExist(id)),
        ),
        (PendingView::Get(id, delta), StoreReplyView::Row(Some(task))) => (
            SessionView::AwaitingStore(PendingView::Put),
            ActionView::Ask(StoreRequestView::Put(id, delta.apply_to(task))),
        ),
        (PendingView::Put, StoreReplyView::Done) => responds(ResponseView::Nothing),
        (PendingView::Delete, StoreReplyView::Done) => responds(ResponseView::Nothing),
        _ => fails(ErrorView::UnexpectedEvent),
    }
}

/// The rules of a session: where it stands after an event, and what is to be
/// done next.
///
/// A stream that ends before the first byte of a frame is a peer that closed:
/// the session ends without a failure. A stream that ends inside a frame, a
/// payload that is no request, a failure of the transport or of the store,
/// and an event that the session was not waiting for end it with one. A
/// session that has ended stays so.
pub open spec fn spec_step(session: SessionView, event: EventView) -> (SessionView, ActionView) {
    match (session, event) {
        (SessionView::Closed, _) => (SessionView::Closed, ActionView::Finish(Ok(()))),
        (SessionView::Failed, _) => fails(ErrorView::UnexpectedEvent),
        (_, EventView::TransportFailed) => fails(ErrorView::IoError),
        (_, EventView::StoreFailed) => fails(ErrorView::StorageError),
        (SessionView::AwaitingLength, EventView::Bytes(bytes)) => if bytes.len() == 0 {
            (SessionView::Closed, ActionView::Finish(Ok(())))
        } else if bytes.len() == 1 {
            fails(ErrorView::Truncated)
        } else if bytes.len() == 2 {
            (
                SessionView::AwaitingPayload(prefix_length(bytes[0], bytes[1]) as usize),
                ActionView::Read(prefix_length(bytes[0], bytes[1]) as usize),
            )
        } else {
            fails(ErrorView::UnexpectedEvent)
        },
        (SessionView::AwaitingPayload(length), EventView::Bytes(bytes)) => if bytes.len()
            < length {
            fails(ErrorView::Truncated)
        } else if bytes.len() == length {
            match spec_message_from_payload(bytes) {
                Ok(message) => dispatches(message),
                Err(e) => fails(e),
            }
        } else {
            fails(ErrorView::UnexpectedEvent)
        },
        (SessionView::AwaitingStore(pending), EventView::Reply(reply)) => continues(
            pending,
            reply,
        ),
        (SessionView::Writing, EventView::Written) => (
            SessionView::AwaitingLength,
            ActionView::Read(2),
        ),
        _ => fails(ErrorView::UnexpectedEvent),
    }
}

/// Ends the session with a failure.
fn fail(session: &mut ServerSession, error: YabuError) -> (action: ServerAction)
    ensures
        (final(session)@, action@) == fails(error@),
{
    *session = ServerSession::Failed;
    ServerAction::Finish(Err(error))
}

/// Sends an answer out.
fn respond(session: &mut ServerSession, response: Response) -> (action: ServerAction)
    ensures
        (final(session)@, action@) == responds(response@),
{
    match response.write_to_socket() {
        Ok(bytes) => {
            *session = ServerSession::Writing;
            ServerAction::Write(bytes)
        },
        Err(e) => fail(session, e),
    }
}

/// Asks the store what a request needs first.
fn dispatch(session: &mut ServerSession, message: Message) -> (action: ServerAction)
    ensures
        (final(session)@, action@) == dispatches(message@),
{
    match message {
        Message::Add(task) => {
            *session = ServerSession::AwaitingStore(Pending::Insert);
            ServerAction::Ask(
                StoreRequest::Insert(
                    Task {
                        id: None,
                        complete: task.complete,
                        description: task.description,
                        priority: task.priority,
                        due_date: task.due_date,
                    },
                ),
            )
        },
        Message::List => {
            *session = ServerSession::AwaitingStore(Pending::All);
            ServerAction::Ask(StoreRequest::All)
        },
        Message::Update(id, delta) => {
            *session = ServerSession::AwaitingStore(Pending::Get(id, delta));
            ServerAction::Ask(StoreRequest::Get(id))
        },
        Message::Remove(id) => {
            *session = ServerSession::AwaitingStore(Pending::Delete);
            ServerAction::Ask(StoreRequest::Delete(id))
        },
    }
}

/// Goes on with what the store handed back.
fn resume(session: &mut ServerSession, pending: Pending, reply: StoreReply) -> (action:
    ServerAction)
    ensures
        (final(session)@, action@) == continues(pending@, reply@),
{
    match (pending, reply) {
        (Pending::Insert, StoreReply::Done) => respond(session, Response::Nothing),
        (Pending::All, StoreReply::Rows(tasks)) => respond(session, Response::Tasks(tasks)),
        (Pending::Get(id, _), StoreReply::Row(None)) => respond(
            session,
            Response::Error(YabuRpcError::TaskDoesntExist(id)),
        ),
        (Pending::Get(id, delta), StoreReply::Row(Some(task))) => {
            let mut task = task;
            task.apply_delta(delta);
            *session = ServerSession::AwaitingStore(Pending::Put);
            ServerAction::Ask(StoreRequest::Put(id, task))
        },
        (Pending::Put, StoreReply::Done) => respond(session, Response::Nothing),
        (Pending::Delete, StoreReply::Done) => respond(session, Response::Nothing),
        _ => fail(session, YabuError::UnexpectedEvent),
    }
}

impl ServerSession {
    /// A session on a connection that was just accepted, and what is to be
    /// done first: read the length of the first frame.
    pub fn begin() -> (r: (ServerSession, ServerAction))
        ensures
            r.0@ == SessionView::AwaitingLength,
            r.1@ == ActionView::Read(2),
    {
        (ServerSession::AwaitingLength, ServerAction::Read(2))
    }

    /// Whether the session has ended.
    pub fn is_over(&self) -> (over: bool)
        ensures
            over == (self@ is Closed || self@ is Failed),
    {
        match self {
            ServerSession::Closed => true,
            ServerSession::Failed => true,
            _ => false,
        }
    }

    /// Takes in what happened and says what is to be done next.
    pub fn step(&mut self, event: ServerEvent) -> (action: ServerAction)
        ensures
            (final(self)@, action@) == spec_step(old(self)@, event@),
    {
        let mut state = ServerSession::Failed;
        core::mem::swap(self, &mut state);
        match (state, event) {
            (ServerSession::Closed, _) => {
                *self = ServerSession::Closed;
                ServerAction::Finish(Ok(()))
            },
            (ServerSession::Failed, _) => fail(self, YabuError::UnexpectedEvent),
            (_, ServerEvent::TransportFailed) => fail(self, YabuError::IoError),
            (_, ServerEvent::StoreFailed) => fail(self, YabuError::StorageError),
            (ServerSession::AwaitingLength, ServerEvent::Bytes(bytes)) => {
                if bytes.len() == 0 {
                    *self = ServerSession::Closed;
                    ServerAction::Finish(Ok(()))
                } else if bytes.len() == 1 {
                    fail(self, YabuError::Truncated)
                } else if bytes.len() == 2 {
                    let length = payload_length(bytes[0], bytes[1]);
                    *self = ServerSession::AwaitingPayload(length);
                    ServerAction::Read(length)
                } else {
                    fail(self, YabuError::UnexpectedEvent)
                }
            },
            (ServerSession::AwaitingPayload(length), ServerEvent::Bytes(bytes)) => {
                if bytes.len() < length {
                    fail(self, YabuError::Truncated)
                } else if bytes.len() == length {
                    match Message::from_payload(bytes.as_slice()) {
                        Ok(message) => dispatch(self, message),
                        Err(e) => fail(self, e),
                    }
                } else {
                    fail(self, YabuError::UnexpectedEvent)
                }
            },
            (ServerSession::AwaitingStore(pending), ServerEvent::Reply(reply)) => resume(
                self,
                pending,
                reply,
            ),
            (ServerSession::Writing, ServerEvent::Written) => {
                *self = ServerSession::AwaitingLength;
                ServerAction::Read(2)
            },
            _ => fail(self, YabuError::UnexpectedEvent),
        }
    }
}

/// What a read of up to `count` bytes brings in, on a stream of which `from`
/// bytes were read before.
pub open spec fn read_of(stream: Seq<u8>, from: int, count: int) -> Seq<u8> {
    if from + count <= stream.len() {
        stream.subrange(from, from + count)
    } else if from <= stream.len() {
        stream.subrange(from, stream.len() as int)
    } else {
        Seq::<u8>::empty()
    }
}

/// Where a session that waits for a request stands once it has read what
/// the stream holds for one frame: first the two bytes of the length, then
/// as many bytes as they count.
pub open spec fn reads(stream: Seq<u8>) -> (SessionView, ActionView) {
    let first = spec_step(SessionView::AwaitingLength, EventView::Bytes(read_of(stream, 0, 2)));
    match first.1 {
        ActionView::Read(count) => spec_step(
            first.0,
            EventView::Bytes(read_of(stream, 2, count as int)),
        ),
        _ => first,
    }
}

/// A session reads from a stream the request that the stream's first frame
/// spells, and asks the store for what that request needs. It ends without
/// a failure where the stream holds no byte, and with the failure of the
/// frame where the frame is cut short or spells no request.
pub proof fn lemma_session_reads_frames(stream: Seq<u8>)
    ensures
        reads(stream) == (match spec_decode_message(stream) {
            Ok(message) => dispatches(message),
            Err(ErrorView::ConnectionClosed) => (
                SessionView::Closed,
                ActionView::Finish(Ok::<(), ErrorView>(())),
            ),
            Err(e) => fails(e),
        }),
{
    let head = read_of(stream, 0, 2);
    if stream.len() >= 2 {
        assert(head[0] == stream[0] && head[1] == stream[1]);
        let count = prefix_length(stream[0], stream[1]);
        assert(0 <= count <= 65535);
        assert(count as usize as int == count);
    }
}

/// One turn with the store: what the session asks is handed to the store,
/// and what the store hands back goes to the session. A session that asks
/// nothing stays where it is.
pub open spec fn asks(db: DatabaseView, at: (SessionView, ActionView)) -> (
    DatabaseView,
    (SessionView, ActionView),
) {
    match at.1 {
        ActionView::Ask(request) => match store_reply(db, request) {
            Some((after, reply)) => (after, spec_step(at.0, EventView::Reply(reply))),
            None => (db, spec_step(at.0, EventView::StoreFailed)),
        },
        _ => (db, at),
    }
}

/// A request as a session serves it: it asks the store what the request
/// needs first, and once more where the answer of the store calls for it.
pub open spec fn serves(db: DatabaseView, message: MessageView) -> (
    DatabaseView,
    (SessionView, ActionView),
) {
    let first = asks(db, dispatches(message));
    asks(first.0, first.1)
}

/// A session does to the table what the request stands for, and sends the
/// one answer that the request gets. Where the store fails, the session
/// ends with a failure and sends nothing.
pub proof fn lemma_session_serves(db: DatabaseView, message: MessageView)
    requires
        db.wf(),
    ensures
        serves(db, message) == (match serve(db, message) {
            Some((after, response)) => (after, responds(response)),
            None => (db, fails(ErrorView::StorageError)),
        }),
{
    match message {
        MessageView::Add(task) => {
            assert(db.insert(TaskView { id: None, ..task }) == db.insert(task));
        },
        MessageView::List => {},
        MessageView::Update(id, delta) => {},
        MessageView::Remove(id) => {},
    }
}

/// An update of a task that the store does not hold: the session asks the
/// store for the row, writes nothing to the store, and answers with the
/// error that names the id.
pub proof fn lemma_session_update_missing(db: DatabaseView, id: u32, delta: TaskDeltaView)
    requires
        !db.has(id),
    ensures
        dispatches(MessageView::Update(id, delta)).1 == ActionView::Ask(StoreRequestView::Get(id)),
        serves(db, MessageView::Update(id, delta)) == (
            db,
            responds(ResponseView::Error(RpcErrorView::TaskDoesntExist(id))),
        ),
{
}

/// The removal of a task that the store does not hold is answered like any
/// other removal.
pub proof fn lemma_session_remove_missing(db: DatabaseView, id: u32)
    requires
        !db.has(id),
    ensures
        serves(db, MessageView::Remove(id)) == (db, responds(ResponseView::Nothing)),
{
}

/// A request gets one answer or none: once the store has been asked, the
/// session either writes an answer and then waits for the next request, or
/// it has failed.
pub proof fn lemma_one_answer(db: DatabaseView, message: MessageView)
    requires
        db.wf(),
    ensures
        serves(db, message).1.1 is Write ==> serves(db, message).1.0 is Writing && spec_step(
            serves(db, message).1.0,
            EventView::Written,
        ) == (SessionView::AwaitingLength, ActionView::Read(2)),
        !(serves(db, message).1.1 is Write) ==> serves(db, message).1 == fails(
            serves(db, message).1.1->Finish_0->Err_0,
        ),
{
    lemma_session_serves(db, message);
}

/// A failure of the store stays with the session that met it: that session
/// ends, the table is as it was, and a request for the list that any other
/// session serves from it is answered with all its rows.
pub proof fn lemma_failure_stays_with_its_session(db: DatabaseView, failing: SessionView)
    requires
        db.wf(),
        !(failing is Closed),
    ensures
        spec_step(failing, EventView::StoreFailed).0 is Failed,
        spec_step(failing, EventView::StoreFailed).1 is Finish,
        serves(db, MessageView::List) == (db, responds(ResponseView::Tasks(db.rows))),
{
    lemma_session_serves(db, MessageView::List);
}

/// How a connection ends, what was written to the peer until then, and
/// what the table holds after it.
pub ghost struct ConnectionView {
    pub db: DatabaseView,
    pub written: Seq<u8>,
    pub outcome: Result<(), ErrorView>,
}

impl ConnectionView {
    /// The same connection with more written before it.
    pub open spec fn after_writing(self, bytes: Seq<u8>) -> ConnectionView {
        ConnectionView { written: bytes + self.written, ..self }
    }

    /// A connection that ends before anything is written.
    pub open spec fn ended(db: DatabaseView, outcome: Result<(), ErrorView>) -> ConnectionView {
        ConnectionView { db, written: Seq::<u8>::empty(), outcome }
    }
}

/// A whole connection: the requests on the stream are served one after the
/// other, each from the table as the one before left it, and each answer is
/// written before the next request is read. The connection ends without a
/// failure where the stream ends between two requests, and with one where a
/// frame is cut short or malformed, where the store fails, or where an answer
/// cannot be written.
pub open spec fn spec_serve_stream(db: DatabaseView, stream: Seq<u8>) -> ConnectionView
    decreases stream.len(),
{
    match spec_decode_message(stream) {
        Err(ErrorView::ConnectionClosed) => ConnectionView::ended(db, Ok(())),
        Err(e) => ConnectionView::ended(db, Err(e)),
        Ok(message) => match serve(db, message) {
            None => ConnectionView::ended(db, Err(ErrorView::StorageError)),
            Some((after, response)) => match spec_write_response(response) {
                Err(e) => ConnectionView::ended(after, Err(e)),
                Ok(bytes) => spec_serve_stream(
                    after,
                    stream.subrange(frame_size(stream), stream.len() as int),
                ).after_writing(bytes),
            },
        },
    }
}

/// Reads up to `count` bytes of what was sent, from the place `from`.
fn take(sent: &[u8], from: usize, count: usize) -> (bytes: Vec<u8>)
    ensures
        bytes@ == read_of(sent@, from as int, count as int),
{
    let mut bytes: Vec<u8> = Vec::new();
    if from > sent.len() {
        return bytes;
    }
    let available = sent.len() - from;
    let wanted = if count <= available {
        count
    } else {
        available
    };
    let mut i: usize = 0;
    while i < wanted
        invariant
            i <= wanted,
            from + wanted <= sent.len(),
            bytes@ == sent@.subrange(from as int, from + i),
        decreases wanted - i,
    {
        bytes.push(sent[from + i]);
        i += 1;
        assert(bytes@ =~= sent@.subrange(from as int, from + i));
    }
    bytes
}

/// Hands what the session asks to the table, and the table's answer to the
/// session.
fn ask(session: &mut ServerSession, action: ServerAction, db: &mut Database) -> (next:
    ServerAction)
    ensures
        (final(db)@, (final(session)@, next@)) == asks(old(db)@, (old(session)@, action@)),
{
    match action {
        ServerAction::Ask(request) => match db.execute(request) {
            Ok(reply) => session.step(ServerEvent::Reply(reply)),
            Err(_) => session.step(ServerEvent::StoreFailed),
        },
        other => other,
    }
}

/// Serves a whole connection from a table in memory: `sent` is all that the
/// peer sends before it closes the stream. Hands back what was written to
/// the peer, and how the connection ended.
pub fn serve_stream(db: &mut Database, sent: &[u8]) -> (r: (Vec<u8>, Result<(), YabuError>))
    ensures
        final(db)@ == spec_serve_stream(old(db)@, sent@).db,
        r.0@ == spec_serve_stream(old(db)@, sent@).written,
        match r.1 {
            Ok(()) => spec_serve_stream(old(db)@, sent@).outcome == Ok::<(), ErrorView>(()),
            Err(e) => spec_serve_stream(old(db)@, sent@).outcome == Err::<(), ErrorView>(e@),
        },
{
    let ghost whole = spec_serve_stream(db@, sent@);
    let mut written: Vec<u8> = Vec::new();
    let mut session = ServerSession::AwaitingLength;
    let mut at: usize = 0;
    assert(sent@.subrange(0, sent@.len() as int) =~= sent@);
    assert(Seq::<u8>::empty() + whole.written =~= whole.written);
    loop
        invariant
            at <= sent@.len(),
            session@ == SessionView::AwaitingLength,
            whole == spec_serve_stream(old(db)@, sent@),
            whole == spec_serve_stream(
                db@,
                sent@.subrange(at as int, sent@.len() as int),
            ).after_writing(written@),
        decreases sent@.len() - at,
    {
        let ghost stream = sent@.subrange(at as int, sent@.len() as int);
        let ghost before = db@;
        let ghost written_before = written@;
        db.check_valid();
        proof {
            lemma_session_reads_frames(stream);
            if spec_decode_message(stream) is Ok {
                lemma_session_serves(before, spec_decode_message(stream)->Ok_0);
            }
        }
        let head = take(sent, at, 2);
        assert(head@ =~= read_of(stream, 0, 2));
        let first = session.step(ServerEvent::Bytes(head));
        let (read, size) = match first {
            ServerAction::Read(count) => {
                assert(read_of(stream, 0, 2).len() == 2);
                assert(at + 2 <= sent.len());
                let payload = take(sent, at + 2, count);
                assert(payload@ =~= read_of(stream, 2, count as int));
                (session.step(ServerEvent::Bytes(payload)), count)
            },
            other => (other, 0),
        };
        assert((session@, read@) == reads(stream));
        let asked = ask(&mut session, read, db);
        let served = ask(&mut session, asked, db);
        let ghost here = spec_serve_stream(before, stream);
        assert((db@, (session@, served@)) == asks(
            asks(before, reads(stream)).0,
            asks(before, reads(stream)).1,
        ));
        proof {
            match spec_decode_message(stream) {
                Ok(message) => {
                    assert(reads(stream) == dispatches(message));
                    assert((db@, (session@, served@)) == serves(before, message));
                },
                Err(e) => {
                    assert(!(reads(stream).1 is Ask));
                    assert(db@ == before);
                    assert(served@ == reads(stream).1);
                },
            }
        }
        match served {
            ServerAction::Write(bytes) => {
                let mut bytes = bytes;
                let ghost answer = bytes@;
                written.append(&mut bytes);
                let _ = session.step(ServerEvent::Written);
                at = at + 2 + size;
                proof {
                    let rest = sent@.subrange(at as int, sent@.len() as int);
                    assert(stream.subrange(frame_size(stream), stream.len() as int) =~= rest);
                    let tail = spec_serve_stream(db@, rest);
                    assert(written_before + (answer + tail.written) =~= (written_before + answer)
                        + tail.written);
                }
            },
            ServerAction::Finish(outcome) => {
                assert(here.db == db@);
                assert(here.written =~= Seq::<u8>::empty());
                assert(written@ + Seq::<u8>::empty() =~= written@);
                return (written, outcome);
            },
            _ => {
                assert(false);
                return (written, Err(YabuError::UnexpectedEvent));
            },
        }
    }
}

/// The requests as they stand on the stream, one frame behind the other.
pub open spec fn requests_on_wire(messages: Seq<MessageView>) -> Seq<u8>
    decreases messages.len(),
{
    if messages.len() == 0 {
        Seq::<u8>::empty()
    } else {
        spec_write_message(messages[0])->Ok_0 + requests_on_wire(messages.drop_first())
    }
}

/// The answers as they stand on the stream, one frame behind the other.
pub open spec fn answers_on_wire(responses: Seq<ResponseView>) -> Seq<u8>
    decreases responses.len(),
{
    if responses.len() == 0 {
        Seq::<u8>::empty()
    } else {
        spec_write_response(responses[0])->Ok_0 + answers_on_wire(responses.drop_first())
    }
}

/// What a list of requests does to the table, one after the other, and the
/// answers that they get. Nothing where the store fails on one of them.
pub open spec fn serve_all(db: DatabaseView, messages: Seq<MessageView>) -> Option<
    (DatabaseView, Seq<ResponseView>),
>
    decreases messages.len(),
{
    if messages.len() == 0 {
        Some((db, Seq::<ResponseView>::empty()))
    } else {
        match serve(db, messages[0]) {
            Some((after, response)) => match serve_all(after, messages.drop_first()) {
                Some((last, responses)) => Some((last, seq![response] + responses)),
                None => None,
            },
            None => None,
        }
    }
}

/// A connection on which a client sends requests and then closes the stream
/// ends without a failure: every request was served in its turn, and the
/// answers stand on the stream in the order of the requests, one for each.
/// This holds where every request was written, the store has an id for
/// every task that is added, and every answer is written.
pub proof fn lemma_connection_serves_all(db: DatabaseView, messages: Seq<MessageView>)
    requires
        db.wf(),
        forall|i: int|
            0 <= i < messages.len() ==> spec_write_message(#[trigger] messages[i]) is Ok,
        serve_all(db, messages) is Some,
        forall|j: int|
            0 <= j < serve_all(db, messages)->Some_0.1.len() ==> spec_write_response(
                #[trigger] serve_all(db, messages)->Some_0.1[j],
            ) is Ok,
    ensures
        serve_all(db, messages)->Some_0.1.len() == messages.len(),
        spec_serve_stream(db, requests_on_wire(messages)) == (ConnectionView {
            db: serve_all(db, messages)->Some_0.0,
            written: answers_on_wire(serve_all(db, messages)->Some_0.1),
            outcome: Ok(()),
        }),
    decreases messages.len(),
{
    if messages.len() > 0 {
        let first = messages[0];
        let others = messages.drop_first();
        let stream = requests_on_wire(messages);
        let rest = requests_on_wire(others);
        let after = serve(db, first)->Some_0.0;
        let response = serve(db, first)->Some_0.1;
        let responses = serve_all(after, others)->Some_0.1;
        let all = serve_all(db, messages)->Some_0.1;
        assert(all == seq![response] + responses);
        assert(all[0] == response);
        assert(all.drop_first() =~= responses);
        assert forall|j: int| 0 <= j < responses.len() implies spec_write_response(
            #[trigger] responses[j],
        ) is Ok by {
            assert(all[j + 1] == responses[j]);
        }
        assert forall|i: int| 0 <= i < others.len() implies spec_write_message(
            #[trigger] others[i],
        ) is Ok by {
            assert(others[i] == messages[i + 1]);
        }
        lemma_serve_keeps_table(db, first);
        lemma_connection_serves_all(after, others);
        lemma_message_survives_the_wire(first, rest);
        lemma_frame_round_trip(crate::json::json_text(message_json(first)), rest);
        assert(stream.subrange(frame_size(stream), stream.len() as int) =~= rest);
    }
}

} // verus!
