use vstd::prelude::*;

use crate::errors::{status_of, HandlerError, PoolError};
use crate::models::Cat;
use crate::validate::{validate_id, validation_of, ValidatedId};

verus! {

/// Most records that one listing returns.
pub const LIST_LIMIT: usize = 100;

/// The status of a successful response.
pub const STATUS_OK: u16 = 200;

/// The two endpoints, with the identifier of a single-record request.
#[derive(Clone, Copy, Debug, PartialEq, Eq)]
pub enum Request {
    ListRecords,
    GetRecordById(ValidatedId),
}

/// Where one request stands. The runner performs the action that each step
/// returns and hands back what came of it as an `Event`.
#[derive(Clone, Copy, Debug, PartialEq, Eq)]
pub enum Handler {
    /// Waiting for the pool to lend a connection.
    AwaitingConnection(Request),
    /// Holding a connection, waiting for the store's rows.
    AwaitingRows(Request),
    /// The response has been decided; the connection, if any, is released.
    Done,
}

/// What a response carries.
#[derive(Clone, Debug, PartialEq, Eq)]
pub enum Body {
    Records(Vec<Cat>),
    Record(Cat),
    Failure(HandlerError),
}

#[derive(Clone, Debug, PartialEq, Eq)]
pub struct Response {
    pub status: u16,
    pub body: Body,
}

/// What the runner is to do next.
#[derive(Clone, Debug, PartialEq, Eq)]
pub enum Action {
    /// Lease a connection from the pool.
    AcquireConnection,
    /// Load at most this many records, in the store's own scan order.
    LoadRecords(usize),
    /// Load the record whose primary key is this identifier.
    LoadRecord(ValidatedId),
    /// Send this response and release any connection held.
    Respond(Response),
}

/// What came of the last action.
#[derive(Clone, Debug, PartialEq, Eq)]
pub enum Event {
    ConnectionAcquired,
    ConnectionRefused(PoolError),
    RecordsLoaded(Vec<Cat>),
    /// The single-record query found the record, or found no row.
    RecordLoaded(Option<Cat>),
    /// The store failed while running the query.
    QueryFailed,
}

pub enum RequestView {
    ListRecords,
    GetRecordById(int),
}

pub enum HandlerView {
    AwaitingConnection(RequestView),
    AwaitingRows(RequestView),
    Done,
}

pub enum BodyView {
    Records(Seq<Cat>),
    Record(Cat),
    Failure(HandlerError),
}

pub struct ResponseView {
    pub status: u16,
    pub body: BodyView,
}

pub enum ActionView {
    AcquireConnection,
    LoadRecords(int),
    LoadRecord(int),
    Respond(ResponseView),
}

pub enum EventView {
    ConnectionAcquired,
    ConnectionRefused(PoolError),
    RecordsLoaded(Seq<Cat>),
    RecordLoaded(Option<Cat>),
    QueryFailed,
}

impl View for Request {
    type V = RequestView;

    open spec fn view(&self) -> RequestView {
        match self {
            Request::ListRecords => RequestView::ListRecords,
            Request::GetRecordById(id) => RequestView::GetRecordById(id@),
        }
    }
}

impl View for Handler {
    type V = HandlerView;

    open spec fn view(&self) -> HandlerView {
        match self {
            Handler::AwaitingConnection(r) => HandlerView::AwaitingConnection(r@),
            Handler::AwaitingRows(r) => HandlerView::AwaitingRows(r@),
            Handler::Done => HandlerView::Done,
        }
    }
}

impl View for Body {
    type V = BodyView;

    open spec fn view(&self) -> BodyView {
        match self {
            Body::Records(rows) => BodyView::Records(rows@),
            Body::Record(c) => BodyView::Record(*c),
            Body::Failure(e) => BodyView::Failure(*e),
        }
    }
}

impl View for Response {
    type V = ResponseView;

    open spec fn view(&self) -> ResponseView {
        ResponseView { status: self.status, body: self.body@ }
    }
}

impl View for Action {
    type V = ActionView;

    open spec fn view(&self) -> ActionView {
        match self {
            Action::AcquireConnection => ActionView::AcquireConnection,
            Action::LoadRecords(limit) => ActionView::LoadRecords(*limit as int),
            Action::LoadRecord(id) => ActionView::LoadRecord(id@),
            Action::Respond(resp) => ActionView::Respond(resp@),
        }
    }
}

impl View for Event {
    type V = EventView;

    open spec fn view(&self) -> EventView {
        match self {
            Event::ConnectionAcquired => EventView::ConnectionAcquired,
            Event::ConnectionRefused(e) => EventView::ConnectionRefused(*e),
            Event::RecordsLoaded(rows) => EventView::RecordsLoaded(rows@),
            Event::RecordLoaded(c) => EventView::RecordLoaded(*c),
            Event::QueryFailed => EventView::QueryFailed,
        }
    }
}

/// The response for a failure: its status comes from the error mapping.
pub open spec fn failure(e: HandlerError) -> ResponseView {
    ResponseView { status: status_of(e), body: BodyView::Failure(e) }
}

/// The rows that a listing returns: those the store gave, cut to `LIST_LIMIT`.
pub open spec fn capped(rows: Seq<Cat>) -> Seq<Cat> {
    if rows.len() <= LIST_LIMIT {
        rows
    } else {
        rows.take(LIST_LIMIT as int)
    }
}

/// The query that a request runs once it holds a connection.
pub open spec fn query_for(req: RequestView) -> ActionView {
    match req {
        RequestView::ListRecords => ActionView::LoadRecords(LIST_LIMIT as int),
        RequestView::GetRecordById(v) => ActionView::LoadRecord(v),
    }
}

/// How a listing starts: it asks for a connection.
pub open spec fn begin_list() -> (HandlerView, ActionView) {
    (HandlerView::AwaitingConnection(RequestView::ListRecords), ActionView::AcquireConnection)
}

/// How a single-record request starts: a rejected parameter is answered at
/// once, before any connection is asked for; a valid one asks for a connection.
pub open spec fn begin_get(raw: Seq<char>) -> (HandlerView, ActionView) {
    match validation_of(raw) {
        Ok(v) => (
            HandlerView::AwaitingConnection(RequestView::GetRecordById(v)),
            ActionView::AcquireConnection,
        ),
        Err(e) => (HandlerView::Done, ActionView::Respond(failure(HandlerError::InvalidInput(e)))),
    }
}

/// The events that a handler can be given where it stands.
pub open spec fn expects(h: HandlerView, e: EventView) -> bool {
    match h {
        HandlerView::AwaitingConnection(_) => e is ConnectionAcquired || e is ConnectionRefused,
        HandlerView::AwaitingRows(RequestView::ListRecords) => e is RecordsLoaded || e is QueryFailed,
        HandlerView::AwaitingRows(RequestView::GetRecordById(_)) => e is RecordLoaded
            || e is QueryFailed,
        HandlerView::Done => false,
    }
}

/// One step of a request, for an event that `expects` admits.
pub open spec fn advance(h: HandlerView, e: EventView) -> (HandlerView, ActionView) {
    match h {
        HandlerView::AwaitingConnection(req) => match e {
            EventView::ConnectionAcquired => (HandlerView::AwaitingRows(req), query_for(req)),
            _ => (HandlerView::Done, ActionView::Respond(failure(HandlerError::PoolUnavailable))),
        },
        _ => match e {
            EventView::RecordsLoaded(rows) => (
                HandlerView::Done,
                ActionView::Respond(
                    ResponseView { status: STATUS_OK, body: BodyView::Records(capped(rows)) },
                ),
            ),
            EventView::RecordLoaded(Some(c)) => (
                HandlerView::Done,
                ActionView::Respond(ResponseView { status: STATUS_OK, body: BodyView::Record(c) }),
            ),
            EventView::RecordLoaded(None) => (
                HandlerView::Done,
                ActionView::Respond(failure(HandlerError::NotFound)),
            ),
            _ => (HandlerView::Done, ActionView::Respond(failure(HandlerError::QueryFailed))),
        },
    }
}

fn failure_response(e: HandlerError) -> (r: Response)
    ensures
        r@ == failure(e),
{
    Response { status: e.status(), body: Body::Failure(e) }
}

impl Handler {
    /// Starts a listing of the records.
    pub fn list_records() -> (r: (Handler, Action))
        ensures
            (r.0@, r.1@) == begin_list(),
    {
        (Handler::AwaitingConnection(Request::ListRecords), Action::AcquireConnection)
    }

    /// Starts a single-record request for the raw path parameter `raw`.
    pub fn get_record_by_id(raw: &str) -> (r: (Handler, Action))
        ensures
            (r.0@, r.1@) == begin_get(raw@),
    {
        match validate_id(raw) {
            Ok(id) => (
                Handler::AwaitingConnection(Request::GetRecordById(id)),
                Action::AcquireConnection,
            ),
            Err(e) => (
                Handler::Done,
                Action::Respond(failure_response(HandlerError::InvalidInput(e))),
            ),
        }
    }

    /// Whether `event` is one that this handler can be given now.
    pub fn expects(&self, event: &Event) -> (r: bool)
        ensures
            r == expects(self@, event@),
    {
        match self {
            Handler::AwaitingConnection(_) => match event {
                Event::ConnectionAcquired => true,
                Event::ConnectionRefused(_) => true,
                _ => false,
            },
            Handler::AwaitingRows(Request::ListRecords) => match event {
                Event::RecordsLoaded(_) => true,
                Event::QueryFailed => true,
                _ => false,
            },
            Handler::AwaitingRows(Request::GetRecordById(_)) => match event {
                Event::RecordLoaded(_) => true,
                Event::QueryFailed => true,
                _ => false,
            },
            Handler::Done => false,
        }
    }

    pub fn is_done(&self) -> (r: bool)
        ensures
            r == (self@ is Done),
    {
        match self {
            Handler::Done => true,
            _ => false,
        }
    }

    /// Takes what came of the last action and decides the next one.
    pub fn step(self, event: Event) -> (r: (Handler, Action))
        requires
            expects(self@, event@),
        ensures
            (r.0@, r.1@) == advance(self@, event@),
    {
        match self {
            Handler::AwaitingConnection(req) => match event {
                Event::ConnectionAcquired => {
                    let action = match req {
                        Request::ListRecords => Action::LoadRecords(LIST_LIMIT),
                        Request::GetRecordById(id) => Action::LoadRecord(id),
                    };
                    (Handler::AwaitingRows(req), action)
                },
                _ => (Handler::Done, Action::Respond(failure_response(HandlerError::PoolUnavailable))),
            },
            _ => match event {
                Event::RecordsLoaded(rows) => {
                    let ghost given = rows@;
                    let mut rows = rows;
                    rows.truncate(LIST_LIMIT);
                    assert(rows@ =~= capped(given));
                    (
                        Handler::Done,
                        Action::Respond(Response { status: STATUS_OK, body: Body::Records(rows) }),
                    )
                },
                Event::RecordLoaded(Some(c)) => (
                    Handler::Done,
                    Action::Respond(Response { status: STATUS_OK, body: Body::Record(c) }),
                ),
                Event::RecordLoaded(None) => (
                    Handler::Done,
                    Action::Respond(failure_response(HandlerError::NotFound)),
                ),
                _ => (Handler::Done, Action::Respond(failure_response(HandlerError::QueryFailed))),
            },
        }
    }
}

} // verus!
