//! The life of one connection: unregistered, registered, closed. Each event
//! that the transport hands over moves the connection along and may change
//! the directory; what has to happen outside is told in the outcome.

use crate::message::{envelope_of_text, kind_of, label_of, MessageKind, WsMessage};
use crate::registry::{fresh_record, RecordView, Registry};
use crate::session::{info_of, state_of, AntigravityState, ExtensionInfo};
use tokio::sync::mpsc::UnboundedSender;
use vstd::prelude::*;

verus! {

/// Where a connection stands.
#[derive(Debug)]
pub enum ConnectionState {
    /// Connected, but no registration has been accepted yet.
    Unregistered,
    /// Registered under the session id held here.
    Registered(String),
    /// Over. Nothing leads out of this state.
    Closed,
}

/// Mathematical value of a [`ConnectionState`].
pub enum StateView {
    Unregistered,
    Registered(Seq<char>),
    Closed,
}

impl View for ConnectionState {
    type V = StateView;

    open spec fn view(&self) -> StateView {
        match self {
            ConnectionState::Unregistered => StateView::Unregistered,
            ConnectionState::Registered(id) => StateView::Registered(id@),
            ConnectionState::Closed => StateView::Closed,
        }
    }
}

/// What the transport reports about a connection.
#[derive(Debug)]
pub enum Event {
    /// A text frame arrived.
    Text(String),
    /// A frame of another sort arrived.
    Other,
    /// The peer closed the connection.
    PeerClosed,
    /// The transport failed.
    TransportError,
    /// The server is shutting the connection down.
    Shutdown,
}

/// Mathematical value of an [`Event`].
pub enum EventView {
    Text(Seq<char>),
    Other,
    PeerClosed,
    TransportError,
    Shutdown,
}

impl View for Event {
    type V = EventView;

    open spec fn view(&self) -> EventView {
        match self {
            Event::Text(text) => EventView::Text(text@),
            Event::Other => EventView::Other,
            Event::PeerClosed => EventView::PeerClosed,
            Event::TransportError => EventView::TransportError,
            Event::Shutdown => EventView::Shutdown,
        }
    }
}

/// What came of an event. Only `SimulateEnter` asks the caller to act.
#[derive(Debug, PartialEq, Eq)]
pub enum Outcome {
    /// Nothing was done: the frame was not text, or the connection was closed already.
    Ignored,
    /// The frame was dropped: it is not an envelope.
    Malformed,
    /// The envelope was dropped: its payload does not fit its type.
    BadPayload,
    /// The envelope was dropped: it needs a registered connection.
    NotRegistered,
    /// The session was entered in the directory.
    Registered,
    /// A status report was read; the flag tells whether the directory still
    /// held the session and stored it.
    StateChanged(bool),
    /// An answer to an earlier request was seen: its type and its id.
    Response(String, String),
    /// The submit shortcut is to be pressed in the window of the workspace named.
    SimulateEnter(String),
    /// An envelope of an unknown type was seen.
    Unknown(String),
    /// The connection was closed and its session taken out of the directory.
    Closed,
}

/// Mathematical value of an [`Outcome`].
pub enum OutcomeView {
    Ignored,
    Malformed,
    BadPayload,
    NotRegistered,
    Registered,
    StateChanged(bool),
    Response(Seq<char>, Seq<char>),
    SimulateEnter(Seq<char>),
    Unknown(Seq<char>),
    Closed,
}

impl View for Outcome {
    type V = OutcomeView;

    open spec fn view(&self) -> OutcomeView {
        match self {
            Outcome::Ignored => OutcomeView::Ignored,
            Outcome::Malformed => OutcomeView::Malformed,
            Outcome::BadPayload => OutcomeView::BadPayload,
            Outcome::NotRegistered => OutcomeView::NotRegistered,
            Outcome::Registered => OutcomeView::Registered,
            Outcome::StateChanged(stored) => OutcomeView::StateChanged(*stored),
            Outcome::Response(kind, id) => OutcomeView::Response(kind@, id@),
            Outcome::SimulateEnter(label) => OutcomeView::SimulateEnter(label@),
            Outcome::Unknown(kind) => OutcomeView::Unknown(kind@),
            Outcome::Closed => OutcomeView::Closed,
        }
    }
}

/// The directory, the connection and the outcome after one event.
pub struct Step {
    pub state: StateView,
    pub sessions: Map<Seq<char>, RecordView>,
    pub outcome: OutcomeView,
}

/// What an envelope does on an open connection.
pub open spec fn dispatch(
    state: StateView,
    sessions: Map<Seq<char>, RecordView>,
    outbound: UnboundedSender<String>,
    msg: crate::message::WsMessageView,
) -> Step {
    match kind_of(msg.msg_type) {
        MessageKind::Hello => match info_of(msg.payload) {
            Some(info) => Step {
                state: StateView::Registered(info.window_id),
                sessions: sessions.insert(info.window_id, fresh_record(info, outbound)),
                outcome: OutcomeView::Registered,
            },
            None => Step { state, sessions, outcome: OutcomeView::BadPayload },
        },
        kind => match state {
            StateView::Registered(id) => match kind {
                MessageKind::StateChanged => match state_of(msg.payload) {
                    Some(report) => Step {
                        state,
                        sessions: if sessions.contains_key(id) {
                            sessions.insert(
                                id,
                                RecordView { state: Some(report), ..sessions[id] },
                            )
                        } else {
                            sessions
                        },
                        outcome: OutcomeView::StateChanged(sessions.contains_key(id)),
                    },
                    None => Step { state, sessions, outcome: OutcomeView::BadPayload },
                },
                MessageKind::Response => Step {
                    state,
                    sessions,
                    outcome: OutcomeView::Response(msg.msg_type, msg.id),
                },
                MessageKind::SimulateEnter => Step {
                    state,
                    sessions,
                    outcome: OutcomeView::SimulateEnter(label_of(msg.payload)),
                },
                _ => Step { state, sessions, outcome: OutcomeView::Unknown(msg.msg_type) },
            },
            _ => Step { state, sessions, outcome: OutcomeView::NotRegistered },
        },
    }
}

/// What an event does to a connection and to the directory.
pub open spec fn step(
    state: StateView,
    sessions: Map<Seq<char>, RecordView>,
    outbound: UnboundedSender<String>,
    event: EventView,
) -> Step {
    match state {
        StateView::Closed => Step { state, sessions, outcome: OutcomeView::Ignored },
        _ => match event {
            EventView::Text(text) => match envelope_of_text(text) {
                Some(msg) => dispatch(state, sessions, outbound, msg),
                None => Step { state, sessions, outcome: OutcomeView::Malformed },
            },
            EventView::Other => Step { state, sessions, outcome: OutcomeView::Ignored },
            _ => Step {
                state: StateView::Closed,
                sessions: match state {
                    StateView::Registered(id) => sessions.remove(id),
                    _ => sessions,
                },
                outcome: OutcomeView::Closed,
            },
        },
    }
}

/// One client connection, from the moment the transport has accepted it.
pub struct Connection {
    state: ConnectionState,
    outbound: UnboundedSender<String>,
}

impl View for Connection {
    type V = StateView;

    closed spec fn view(&self) -> StateView {
        self.state@
    }
}

impl Connection {
    /// The handle of this connection's outbound queue.
    pub closed spec fn outbound(&self) -> UnboundedSender<String> {
        self.outbound
    }

    /// A connection that has not registered yet. `outbound` is the sending
    /// half of its queue, which a registration hands to the directory.
    pub fn new(outbound: UnboundedSender<String>) -> (r: Connection)
        ensures
            r@ == StateView::Unregistered,
            r.outbound() == outbound,
    {
        Connection { state: ConnectionState::Unregistered, outbound }
    }

    /// The session id under which this connection is registered, if it is.
    pub fn window_id(&self) -> (r: Option<String>)
        ensures
            match r {
                Some(id) => self@ == StateView::Registered(id@),
                None => !(self@ is Registered),
            },
    {
        match &self.state {
            ConnectionState::Registered(id) => Some(id.clone()),
            _ => None,
        }
    }

    /// Whether the connection is over.
    pub fn is_closed(&self) -> (r: bool)
        ensures
            r == (self@ is Closed),
    {
        match &self.state {
            ConnectionState::Closed => true,
            _ => false,
        }
    }

    /// Applies an envelope to an open connection.
    fn handle_message(&mut self, registry: &mut Registry, msg: WsMessage) -> (r: Outcome)
        requires
            !(old(self)@ is Closed),
        ensures
            final(self).outbound() == old(self).outbound(),
            (Step { state: final(self)@, sessions: final(registry)@, outcome: r@ }) == dispatch(
                old(self)@,
                old(registry)@,
                old(self).outbound(),
                msg@,
            ),
    {
        let kind = msg.kind();
        if kind == MessageKind::Hello {
            return match ExtensionInfo::from_json(&msg.payload) {
                Some(info) => {
                    let id = info.window_id.clone();
                    registry.register(info, self.outbound.clone());
                    self.state = ConnectionState::Registered(id);
                    Outcome::Registered
                },
                None => Outcome::BadPayload,
            };
        }
        let id = match &self.state {
            ConnectionState::Registered(id) => id,
            _ => { return Outcome::NotRegistered; },
        };
        match kind {
            MessageKind::StateChanged => match AntigravityState::from_json(&msg.payload) {
                Some(report) => Outcome::StateChanged(registry.update_state(id.as_str(), report)),
                None => Outcome::BadPayload,
            },
            MessageKind::Response => Outcome::Response(msg.msg_type, msg.id),
            MessageKind::SimulateEnter => Outcome::SimulateEnter(msg.workspace_label()),
            _ => Outcome::Unknown(msg.msg_type),
        }
    }

    /// Applies one event of the transport. The connection and the directory
    /// change as [`step`] says, and the outcome tells what was done.
    pub fn handle(&mut self, registry: &mut Registry, event: Event) -> (r: Outcome)
        ensures
            final(self).outbound() == old(self).outbound(),
            (Step { state: final(self)@, sessions: final(registry)@, outcome: r@ }) == step(
                old(self)@,
                old(registry)@,
                old(self).outbound(),
                event@,
            ),
    {
        if self.is_closed() {
            return Outcome::Ignored;
        }
        match event {
            Event::Text(text) => match WsMessage::parse(text.as_str()) {
                Some(msg) => self.handle_message(registry, msg),
                None => Outcome::Malformed,
            },
            Event::Other => Outcome::Ignored,
            _ => {
                match &self.state {
                    ConnectionState::Registered(id) => {
                        registry.remove(id.as_str());
                    },
                    _ => {},
                }
                self.state = ConnectionState::Closed;
                Outcome::Closed
            },
        }
    }
}

} // verus!
