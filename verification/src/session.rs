//! One request from start to done: what the handler asks for next, given
//! what came of the last thing it asked for.
//!
//! A session decides and never acts. Its caller acquires the connection,
//! runs the backend operation, hands the connection back and delivers the
//! response, and tells the session each time what happened.

use crate::backend::BackendError;
use crate::error::{unavailable, unavailable_view, Failure, ServiceError, ServiceErrorView};
use crate::fields::Fields;
use crate::pool::Lease;
use crate::pool_model::{Health, PoolError};
use crate::record::{
    field_or_empty, key_of, names, pairs_of, pairs_view, record_key, record_names, record_pairs,
    response_from_fields, strings_view, GetRequest, GetResponse, SetRequest, SetResponse,
    ID_ATTRIBUTE, STATUS_ATTRIBUTE,
};
use vstd::prelude::*;

verus! {

/// A request to the service.
#[derive(Clone, Debug, PartialEq, Eq)]
pub enum Request {
    Fetch(GetRequest),
    Store(SetRequest),
}

/// A request as a plain value.
pub enum RequestView {
    Fetch { id: Seq<char> },
    Store { id: Seq<char>, status: Seq<char> },
}

impl View for Request {
    type V = RequestView;

    open spec fn view(&self) -> RequestView {
        match *self {
            Request::Fetch(request) => RequestView::Fetch { id: request.id@ },
            Request::Store(request) => RequestView::Store { id: request.id@, status: request.status@ },
        }
    }
}

/// The answer to a request that went through.
#[derive(Clone, Debug, PartialEq, Eq)]
pub enum Reply {
    Fetched(GetResponse),
    Stored(SetResponse),
}

/// An answer as a plain value.
pub enum ReplyView {
    Fetched { id: Seq<char>, status: Seq<char> },
    Stored,
}

impl View for Reply {
    type V = ReplyView;

    open spec fn view(&self) -> ReplyView {
        match *self {
            Reply::Fetched(response) => ReplyView::Fetched { id: response.id@, status: response.status@ },
            Reply::Stored(_) => ReplyView::Stored,
        }
    }
}

/// How a request ends, as a plain value.
pub type VerdictView = Result<ReplyView, ServiceErrorView>;

/// How a request ends, as a plain value.
pub open spec fn verdict_view(verdict: Result<Reply, ServiceError>) -> VerdictView {
    match verdict {
        Ok(reply) => Ok(reply@),
        Err(error) => Err(error@),
    }
}

/// Where a request stands.
#[derive(Clone, Copy, Debug, PartialEq, Eq, Structural)]
pub enum Phase {
    /// Nothing has been asked for yet.
    Start,
    /// The pool has been asked for a connection.
    Acquiring,
    /// The backend operation runs on the borrowed connection.
    Operating,
    /// The connection is on its way back to the pool.
    Releasing,
    /// The response is on its way to the caller.
    Responding,
    /// The response has been delivered.
    Done,
    /// The pool gave no connection; the request ends without one.
    Failed,
}

/// What the session learns from its caller.
#[derive(Debug)]
pub enum Event {
    /// The request has arrived.
    Begin,
    /// The pool has lent a connection.
    Acquired(Lease),
    /// The pool gave no connection.
    AcquireFailed(PoolError),
    /// The backend has returned these fields.
    Read(Fields),
    /// The backend has stored the fields.
    Written,
    /// The backend operation failed.
    BackendFailed(BackendError),
    /// The caller of the service has gone away.
    Cancelled,
    /// The connection is back in the pool.
    Released,
    /// The response has been delivered.
    Responded,
}

/// An event as a plain value.
pub enum EventView {
    Begin,
    Acquired(int),
    AcquireFailed(PoolError),
    Read(Map<Seq<char>, Seq<char>>),
    Written,
    BackendFailed,
    Cancelled,
    Released,
    Responded,
}

impl View for Event {
    type V = EventView;

    open spec fn view(&self) -> EventView {
        match *self {
            Event::Begin => EventView::Begin,
            Event::Acquired(lease) => EventView::Acquired(lease@),
            Event::AcquireFailed(error) => EventView::AcquireFailed(error),
            Event::Read(fields) => EventView::Read(fields@),
            Event::Written => EventView::Written,
            Event::BackendFailed(_) => EventView::BackendFailed,
            Event::Cancelled => EventView::Cancelled,
            Event::Released => EventView::Released,
            Event::Responded => EventView::Responded,
        }
    }
}

/// What the session asks its caller to do.
#[derive(Debug)]
pub enum Command {
    /// Borrow a connection from the pool.
    Acquire,
    /// Read these fields of the record under `key` on the borrowed
    /// connection.
    Read { key: String, names: Vec<String> },
    /// Write these fields to the record under `key` on the borrowed
    /// connection.
    Write { key: String, pairs: Vec<(String, String)> },
    /// Hand the connection back to the pool, with what is known of its
    /// health.
    Release { lease: Lease, health: Health },
    /// Deliver this to the caller of the service.
    Respond(Result<Reply, ServiceError>),
    /// Nothing: the event changes nothing.
    Halt,
}

/// A command as a plain value.
pub enum CommandView {
    Acquire,
    Read { key: Seq<char>, names: Seq<Seq<char>> },
    Write { key: Seq<char>, pairs: Seq<(Seq<char>, Seq<char>)> },
    Release { slot: int, health: Health },
    Respond(VerdictView),
    Halt,
}

impl View for Command {
    type V = CommandView;

    open spec fn view(&self) -> CommandView {
        match *self {
            Command::Acquire => CommandView::Acquire,
            Command::Read { key, names } => CommandView::Read {
                key: key@,
                names: strings_view(names@),
            },
            Command::Write { key, pairs } => CommandView::Write {
                key: key@,
                pairs: pairs_view(pairs@),
            },
            Command::Release { lease, health } => CommandView::Release { slot: lease@, health },
            Command::Respond(verdict) => CommandView::Respond(verdict_view(verdict)),
            Command::Halt => CommandView::Halt,
        }
    }
}

/// Where a request stands, with what it holds there.
#[derive(Debug)]
enum State {
    Start,
    Acquiring,
    Operating(Lease),
    Releasing(Result<Reply, ServiceError>),
    Responding,
    Done,
    Failed,
}

/// Where a request stands, with what it holds there, as a plain value.
pub enum StateView {
    Start,
    Acquiring,
    /// The place whose connection the session has borrowed.
    Operating(int),
    /// What the caller will be told once the connection is back.
    Releasing(VerdictView),
    Responding,
    Done,
    Failed,
}

/// One request and how far it has come.
#[derive(Debug)]
pub struct Session {
    request: Request,
    state: State,
}

/// A session as a plain value.
pub struct SessionView {
    pub request: RequestView,
    pub state: StateView,
}

impl View for Session {
    type V = SessionView;

    closed spec fn view(&self) -> SessionView {
        SessionView {
            request: self.request@,
            state: match self.state {
                State::Start => StateView::Start,
                State::Acquiring => StateView::Acquiring,
                State::Operating(lease) => StateView::Operating(lease@),
                State::Releasing(verdict) => StateView::Releasing(verdict_view(verdict)),
                State::Responding => StateView::Responding,
                State::Done => StateView::Done,
                State::Failed => StateView::Failed,
            },
        }
    }
}

impl RequestView {
    /// The backend operation of this request: a read of the record's two
    /// fields, or a write of both.
    pub open spec fn operation(self) -> CommandView {
        match self {
            RequestView::Fetch { id } => CommandView::Read { key: key_of(id), names: names() },
            RequestView::Store { id, status } => CommandView::Write {
                key: key_of(id),
                pairs: pairs_of(id, status),
            },
        }
    }

    /// The answer that `event` gives to this request, where `event` is
    /// the good end of the request's own operation.
    pub open spec fn answer(self, event: EventView) -> Option<ReplyView> {
        match self {
            RequestView::Fetch { id } => match event {
                EventView::Read(fields) => Some(
                    ReplyView::Fetched {
                        id: field_or_empty(fields, ID_ATTRIBUTE@),
                        status: field_or_empty(fields, STATUS_ATTRIBUTE@),
                    },
                ),
                _ => None,
            },
            RequestView::Store { id, status } => match event {
                EventView::Written => Some(ReplyView::Stored),
                _ => None,
            },
        }
    }
}

impl SessionView {
    /// A session that has not begun.
    pub open spec fn fresh(request: RequestView) -> SessionView {
        SessionView { request, state: StateView::Start }
    }

    /// Where the request stands.
    pub open spec fn phase(self) -> Phase {
        match self.state {
            StateView::Start => Phase::Start,
            StateView::Acquiring => Phase::Acquiring,
            StateView::Operating(_) => Phase::Operating,
            StateView::Releasing(_) => Phase::Releasing,
            StateView::Responding => Phase::Responding,
            StateView::Done => Phase::Done,
            StateView::Failed => Phase::Failed,
        }
    }

    /// The place whose connection the session holds, if it holds one.
    pub open spec fn holds(self) -> Option<int> {
        match self.state {
            StateView::Operating(slot) => Some(slot),
            _ => None,
        }
    }

    /// This session in another state.
    pub open spec fn at(self, state: StateView) -> SessionView {
        SessionView { request: self.request, state }
    }

    /// The session after `event`, and what it asks for.
    ///
    /// A connection that arrives while the session is not waiting for one
    /// goes straight back to the pool. Otherwise: a session that begins
    /// asks for a connection; one that gets it starts its operation, and
    /// one that gets none ends with `BackendUnavailable`; whatever ends
    /// the operation, the connection is handed back, healthy after the
    /// operation's own good end and broken after anything else; once the
    /// connection is back the caller is answered.
    pub open spec fn step(self, event: EventView) -> (SessionView, CommandView) {
        match self.state {
            StateView::Acquiring => match event {
                EventView::Acquired(slot) => (
                    self.at(StateView::Operating(slot)),
                    self.request.operation(),
                ),
                EventView::AcquireFailed(_) | EventView::Cancelled => (
                    self.at(StateView::Failed),
                    CommandView::Respond(Err(unavailable_view())),
                ),
                _ => (self, CommandView::Halt),
            },
            _ => match event {
                EventView::Acquired(slot) => (
                    self,
                    CommandView::Release { slot, health: Health::Healthy },
                ),
                _ => match self.state {
                    StateView::Start => match event {
                        EventView::Begin => (self.at(StateView::Acquiring), CommandView::Acquire),
                        _ => (self, CommandView::Halt),
                    },
                    StateView::Operating(slot) => match self.request.answer(event) {
                        Some(reply) => (
                            self.at(StateView::Releasing(Ok(reply))),
                            CommandView::Release { slot, health: Health::Healthy },
                        ),
                        None => (
                            self.at(StateView::Releasing(Err(unavailable_view()))),
                            CommandView::Release { slot, health: Health::Broken },
                        ),
                    },
                    StateView::Releasing(verdict) => match event {
                        EventView::Released => (
                            self.at(StateView::Responding),
                            CommandView::Respond(verdict),
                        ),
                        _ => (self, CommandView::Halt),
                    },
                    StateView::Responding => match event {
                        EventView::Responded => (self.at(StateView::Done), CommandView::Halt),
                        _ => (self, CommandView::Halt),
                    },
                    _ => (self, CommandView::Halt),
                },
            },
        }
    }
}

/// The session of a request for a record.
pub fn get_handler(request: GetRequest) -> (session: Session)
    ensures
        session@ == SessionView::fresh(RequestView::Fetch { id: request.id@ }),
{
    Session { request: Request::Fetch(request), state: State::Start }
}

/// The session of a request to store a record.
pub fn set_handler(request: SetRequest) -> (session: Session)
    ensures
        session@ == SessionView::fresh(
            RequestView::Store { id: request.id@, status: request.status@ },
        ),
{
    Session { request: Request::Store(request), state: State::Start }
}

impl Request {
    /// The backend operation of this request.
    pub fn operation(&self) -> (command: Command)
        ensures
            command@ == self@.operation(),
    {
        match self {
            Request::Fetch(request) => Command::Read {
                key: record_key(request.id.as_str()),
                names: record_names(),
            },
            Request::Store(request) => Command::Write {
                key: record_key(request.id.as_str()),
                pairs: record_pairs(request),
            },
        }
    }

    /// The answer that `event` gives to this request, if it gives one.
    pub fn answer(&self, event: &Event) -> (reply: Option<Reply>)
        ensures
            match reply {
                Some(r) => self@.answer(event@) == Some(r@),
                None => self@.answer(event@) is None,
            },
    {
        match self {
            Request::Fetch(_) => match event {
                Event::Read(fields) => Some(Reply::Fetched(response_from_fields(fields))),
                _ => None,
            },
            Request::Store(_) => match event {
                Event::Written => Some(Reply::Stored(SetResponse {  })),
                _ => None,
            },
        }
    }
}

impl Session {
    /// The session of `request`.
    pub fn new(request: Request) -> (session: Session)
        ensures
            session@ == SessionView::fresh(request@),
    {
        Session { request, state: State::Start }
    }

    /// Where the request stands.
    pub fn phase(&self) -> (phase: Phase)
        ensures
            phase == self@.phase(),
    {
        match self.state {
            State::Start => Phase::Start,
            State::Acquiring => Phase::Acquiring,
            State::Operating(_) => Phase::Operating,
            State::Releasing(_) => Phase::Releasing,
            State::Responding => Phase::Responding,
            State::Done => Phase::Done,
            State::Failed => Phase::Failed,
        }
    }

    /// Takes `event` in and says what to do next; see
    /// [`SessionView::step`].
    pub fn step(self, event: Event) -> (next: (Session, Command))
        ensures
            (next.0@, next.1@) == self@.step(event@),
    {
        let Session { request, state } = self;
        match state {
            State::Acquiring => match event {
                Event::Acquired(lease) => {
                    let command = request.operation();
                    (Session { request, state: State::Operating(lease) }, command)
                },
                Event::AcquireFailed(error) => (
                    Session { request, state: State::Failed },
                    Command::Respond(Err(unavailable(Failure::Pool(error)))),
                ),
                Event::Cancelled => (
                    Session { request, state: State::Failed },
                    Command::Respond(Err(unavailable(Failure::Pool(PoolError::PoolExhausted)))),
                ),
                _ => (Session { request, state: State::Acquiring }, Command::Halt),
            },
            state => match event {
                Event::Acquired(lease) => (
                    Session { request, state },
                    Command::Release { lease, health: Health::Healthy },
                ),
                event => match state {
                    State::Start => match event {
                        Event::Begin => (
                            Session { request, state: State::Acquiring },
                            Command::Acquire,
                        ),
                        _ => (Session { request, state: State::Start }, Command::Halt),
                    },
                    State::Operating(lease) => {
                        let reply = request.answer(&event);
                        match reply {
                            Some(reply) => (
                                Session { request, state: State::Releasing(Ok(reply)) },
                                Command::Release { lease, health: Health::Healthy },
                            ),
                            None => (
                                Session {
                                    request,
                                    state: State::Releasing(
                                        Err(
                                            unavailable(Failure::Backend(BackendError {  })),
                                        ),
                                    ),
                                },
                                Command::Release { lease, health: Health::Broken },
                            ),
                        }
                    },
                    State::Releasing(verdict) => match event {
                        Event::Released => (
                            Session { request, state: State::Responding },
                            Command::Respond(verdict),
                        ),
                        _ => (
                            Session { request, state: State::Releasing(verdict) },
                            Command::Halt,
                        ),
                    },
                    State::Responding => match event {
                        Event::Responded => (
                            Session { request, state: State::Done },
                            Command::Halt,
                        ),
                        _ => (Session { request, state: State::Responding }, Command::Halt),
                    },
                    state => (Session { request, state }, Command::Halt),
                },
            },
        }
    }
}

} // verus!
