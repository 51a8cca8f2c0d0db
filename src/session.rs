//! The bridge's decisions: a session state machine that turns transport events
//! into the actions a driver performs.
use vstd::prelude::*;
use vstd::string::*;

use crate::settlement::{CellState, SettlementCell};

verus! {

/// Appended to the caller's message to form the outbound payload.
pub const PAYLOAD_SUFFIX: &'static str = " oh Yah baby! from WASM Rust";

/// The text appended to every outbound payload.
pub open spec fn payload_suffix() -> Seq<char> {
    PAYLOAD_SUFFIX@
}

/// The payload sent for `message`: the message, then the suffix, with no
/// deduplication of a suffix the message may already end with.
pub open spec fn payload_of(message: Seq<char>) -> Seq<char> {
    message + payload_suffix()
}

/// The text a reply carries: its payload when the payload is text, else empty.
pub open spec fn text_of(data: Option<String>) -> Seq<char> {
    match data {
        Some(s) => s@,
        None => Seq::empty(),
    }
}

/// Builds the outbound payload for `message`.
pub fn outbound_payload(message: &str) -> (r: String)
    ensures
        r@ == payload_of(message@),
{
    let mut s = String::from_str(message);
    s.append(PAYLOAD_SUFFIX);
    s
}

/// Reads a reply's payload as text, falling back to the empty string when the
/// payload is not text.
pub fn decode_text(data: Option<String>) -> (r: String)
    ensures
        r@ == text_of(data),
{
    match data {
        Some(s) => s,
        None => String::new(),
    }
}

/// An event the transport delivers to one session.
///
/// `Message` carries the reply's payload as text, or `None` when the payload
/// is not text. `Errored` carries the transport's error value as it came.
#[derive(Clone, Debug, PartialEq, Eq)]
pub enum Event<E> {
    Opened,
    Message(Option<String>),
    Errored(E),
}

/// What the driver does after handing an event to the session.
#[derive(Clone, Debug, PartialEq, Eq)]
pub enum Action<E> {
    /// Nothing: the event changes nothing the caller can observe.
    Ignore,
    /// Transmit this payload on the connection.
    Send(String),
    /// Settle the waiting caller with this reply.
    Resolve(String),
    /// Settle the waiting caller with this error.
    Reject(E),
}

/// The mathematical value of an [`Action`].
pub enum ActionModel<E> {
    Ignore,
    Send(Seq<char>),
    Resolve(Seq<char>),
    Reject(E),
}

impl<E> View for Action<E> {
    type V = ActionModel<E>;

    open spec fn view(&self) -> ActionModel<E> {
        match self {
            Action::Ignore => ActionModel::Ignore,
            Action::Send(p) => ActionModel::Send(p@),
            Action::Resolve(t) => ActionModel::Resolve(t@),
            Action::Reject(e) => ActionModel::Reject(*e),
        }
    }
}

/// The mathematical value of a [`PingSession`].
pub struct SessionModel {
    /// The payload the session sends once the connection is open.
    pub payload: Seq<char>,
    /// Whether the payload has been handed out for sending.
    pub sent: bool,
    /// The settlement cell's state.
    pub cell: CellState,
}

/// A session just set up for `message`: nothing sent, the cell armed.
pub open spec fn fresh(message: Seq<char>) -> SessionModel {
    SessionModel { payload: payload_of(message), sent: false, cell: CellState::Armed }
}

/// The settlement a reply or an error event asks for; `None` for `Opened`.
pub open spec fn settlement_of<E>(ev: Event<E>) -> Option<ActionModel<E>> {
    match ev {
        Event::Opened => None,
        Event::Message(d) => Some(ActionModel::Resolve(text_of(d))),
        Event::Errored(e) => Some(ActionModel::Reject(e)),
    }
}

/// One transition of the bridge: the first `Opened` sends the payload; the
/// first reply or error settles the cell; every other event is ignored.
pub open spec fn step<E>(m: SessionModel, ev: Event<E>) -> (SessionModel, ActionModel<E>) {
    match ev {
        Event::Opened => if m.sent {
            (m, ActionModel::Ignore)
        } else {
            (SessionModel { sent: true, ..m }, ActionModel::Send(m.payload))
        },
        Event::Message(d) => if m.cell == CellState::Armed {
            (SessionModel { cell: CellState::Resolved, ..m }, ActionModel::Resolve(text_of(d)))
        } else {
            (m, ActionModel::Ignore)
        },
        Event::Errored(e) => if m.cell == CellState::Armed {
            (SessionModel { cell: CellState::Rejected, ..m }, ActionModel::Reject(e))
        } else {
            (m, ActionModel::Ignore)
        },
    }
}

/// One call of the bridge: the payload it will send, whether it has, and the
/// settlement cell that the reply and error handlers share.
#[derive(Debug)]
pub struct PingSession {
    payload: String,
    sent: bool,
    cell: SettlementCell,
}

impl View for PingSession {
    type V = SessionModel;

    closed spec fn view(&self) -> SessionModel {
        SessionModel { payload: self.payload@, sent: self.sent, cell: self.cell@ }
    }
}

impl PingSession {
    /// A session for `message`, before any event.
    pub fn new(message: &str) -> (r: PingSession)
        ensures
            r@ == fresh(message@),
    {
        PingSession { payload: outbound_payload(message), sent: false, cell: SettlementCell::new() }
    }

    /// The payload this session sends.
    pub fn payload(&self) -> (r: &str)
        ensures
            r@ == self@.payload,
    {
        self.payload.as_str()
    }

    /// Whether the payload has been handed out for sending.
    pub fn has_sent(&self) -> (r: bool)
        ensures
            r == self@.sent,
    {
        self.sent
    }

    /// The state of the settlement cell.
    pub fn cell_state(&self) -> (r: CellState)
        ensures
            r == self@.cell,
    {
        self.cell.state()
    }

    /// Whether the caller has been settled.
    pub fn is_settled(&self) -> (r: bool)
        ensures
            r == (self@.cell != CellState::Armed),
    {
        !self.cell.is_armed()
    }

    /// The connection opened: hand out the payload the first time only.
    pub fn on_open<E>(&mut self) -> (a: Action<E>)
        ensures
            (final(self)@, a@) == step(old(self)@, Event::<E>::Opened),
    {
        if self.sent {
            Action::Ignore
        } else {
            self.sent = true;
            Action::Send(self.payload.clone())
        }
    }

    /// A reply arrived: resolve with its text if the cell is still armed.
    pub fn on_message<E>(&mut self, data: Option<String>) -> (a: Action<E>)
        ensures
            (final(self)@, a@) == step(old(self)@, Event::<E>::Message(data)),
    {
        if self.cell.resolve() {
            Action::Resolve(decode_text(data))
        } else {
            Action::Ignore
        }
    }

    /// The transport reported an error: reject with it if the cell is still
    /// armed.
    pub fn on_error<E>(&mut self, error: E) -> (a: Action<E>)
        ensures
            (final(self)@, a@) == step(old(self)@, Event::Errored(error)),
    {
        if self.cell.reject() {
            Action::Reject(error)
        } else {
            Action::Ignore
        }
    }

    /// Hands one event to the session.
    pub fn on_event<E>(&mut self, ev: Event<E>) -> (a: Action<E>)
        ensures
            (final(self)@, a@) == step(old(self)@, ev),
    {
        match ev {
            Event::Opened => self.on_open(),
            Event::Message(data) => self.on_message(data),
            Event::Errored(error) => self.on_error(error),
        }
    }
}

/// Sets up a session once the connection attempt is known: a failed attempt
/// is handed back at once, before any session exists.
pub fn start<E>(connected: Result<(), E>, message: &str) -> (r: Result<PingSession, E>)
    ensures
        match connected {
            Ok(_) => r matches Ok(s) && s@ == fresh(message@),
            Err(e) => r matches Err(f) && f == e,
        },
{
    match connected {
        Ok(_) => Ok(PingSession::new(message)),
        Err(e) => Err(e),
    }
}

} // verus!
