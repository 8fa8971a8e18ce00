//! The WebSocket session as a state machine: the subscription filter of one
//! client, and what the session does for each thing that can happen to it.
//!
//! The transport layer owns the socket and the bus subscription. It turns
//! what arrives into a `SocketEvent`, asks `WsSession::step`, and carries out
//! the `SocketAction`.

use crate::api::{RegisterUpdate, RegisterUpdateView, VERSION};
use crate::bus::BusEvent;
use crate::text::str_eq;
use vstd::prelude::*;
use vstd::string::StringExecFns;

verus! {

broadcast use vstd::string::group_string_axioms;

/// WebSocket message types, discriminated on the wire by `type`.
#[derive(Debug)]
pub enum WsMessage {
    /// Subscribe to specific devices; no list means all devices
    Subscribe { devices: Option<Vec<String>> },
    /// Unsubscribe from updates
    Unsubscribe,
    /// Register update (server -> client)
    Update(RegisterUpdate),
    /// Error message
    Error { message: String },
    /// Connection confirmed
    Connected { message: String },
    /// Ping/Pong for keepalive
    Ping,
    Pong,
}

pub enum WsMessageView {
    Subscribe { devices: Option<Seq<Seq<char>>> },
    Unsubscribe,
    Update(RegisterUpdateView),
    Error { message: Seq<char> },
    Connected { message: Seq<char> },
    Ping,
    Pong,
}

impl DeepView for WsMessage {
    type V = WsMessageView;

    open spec fn deep_view(&self) -> WsMessageView {
        match self {
            WsMessage::Subscribe { devices } => WsMessageView::Subscribe {
                devices: devices.deep_view(),
            },
            WsMessage::Unsubscribe => WsMessageView::Unsubscribe,
            WsMessage::Update(update) => WsMessageView::Update(update.deep_view()),
            WsMessage::Error { message } => WsMessageView::Error { message: message@ },
            WsMessage::Connected { message } => WsMessageView::Connected { message: message@ },
            WsMessage::Ping => WsMessageView::Ping,
            WsMessage::Pong => WsMessageView::Pong,
        }
    }
}

/// What can happen to a session.
#[derive(Debug)]
pub enum SocketEvent {
    /// The client sent a text frame that is a message of the protocol.
    Frame(WsMessage),
    /// The client sent a text frame that is no such message; the parser's
    /// complaint comes with it.
    Malformed(String),
    /// The client sent a transport-level ping with this payload.
    TransportPing(Vec<u8>),
    /// The client sent a frame of another kind (binary, transport pong).
    Ignored,
    /// The client sent a close frame.
    CloseFrame,
    /// Receiving from the client failed.
    ReceiveFailed,
    /// The client's stream ended.
    StreamEnded,
    /// The bus delivered an update.
    Update(RegisterUpdate),
    /// The bus dropped this many updates that the session was too slow for.
    Lagged(u64),
    /// The bus was closed.
    BusClosed,
}

pub enum SocketEventView {
    Frame(WsMessageView),
    Malformed(Seq<char>),
    TransportPing(Seq<u8>),
    Ignored,
    CloseFrame,
    ReceiveFailed,
    StreamEnded,
    Update(RegisterUpdateView),
    Lagged(u64),
    BusClosed,
}

impl DeepView for SocketEvent {
    type V = SocketEventView;

    open spec fn deep_view(&self) -> SocketEventView {
        match self {
            SocketEvent::Frame(message) => SocketEventView::Frame(message.deep_view()),
            SocketEvent::Malformed(complaint) => SocketEventView::Malformed(complaint@),
            SocketEvent::TransportPing(payload) => SocketEventView::TransportPing(payload@),
            SocketEvent::Ignored => SocketEventView::Ignored,
            SocketEvent::CloseFrame => SocketEventView::CloseFrame,
            SocketEvent::ReceiveFailed => SocketEventView::ReceiveFailed,
            SocketEvent::StreamEnded => SocketEventView::StreamEnded,
            SocketEvent::Update(update) => SocketEventView::Update(update.deep_view()),
            SocketEvent::Lagged(missed) => SocketEventView::Lagged(*missed),
            SocketEvent::BusClosed => SocketEventView::BusClosed,
        }
    }
}

impl SocketEvent {
    /// What the bus delivered, as an event for the session. An empty bus is
    /// no event.
    pub fn from_bus(event: BusEvent) -> (happened: Option<SocketEvent>)
        ensures
            match event {
                BusEvent::Update(update) => happened matches Some(SocketEvent::Update(same))
                    && same == update,
                BusEvent::Lagged(missed) => happened matches Some(SocketEvent::Lagged(same))
                    && same == missed,
                BusEvent::Empty => happened is None,
                BusEvent::Closed => happened matches Some(SocketEvent::BusClosed),
            },
    {
        match event {
            BusEvent::Update(update) => Some(SocketEvent::Update(update)),
            BusEvent::Lagged(missed) => Some(SocketEvent::Lagged(missed)),
            BusEvent::Empty => None,
            BusEvent::Closed => Some(SocketEvent::BusClosed),
        }
    }
}

/// What the transport layer does next.
#[derive(Debug)]
pub enum SocketAction {
    /// Nothing; wait for the next event.
    Continue,
    /// Send the message as a JSON text frame. If sending fails, the session
    /// ends where `required` is set and goes on otherwise.
    Send { message: WsMessage, required: bool },
    /// Answer a transport-level ping with a pong of the same payload. If
    /// sending fails, the session ends.
    TransportPong(Vec<u8>),
    /// End the session.
    Close,
}

pub enum SocketActionView {
    Continue,
    Send { message: WsMessageView, required: bool },
    TransportPong(Seq<u8>),
    Close,
}

impl DeepView for SocketAction {
    type V = SocketActionView;

    open spec fn deep_view(&self) -> SocketActionView {
        match self {
            SocketAction::Continue => SocketActionView::Continue,
            SocketAction::Send { message, required } => SocketActionView::Send {
                message: message.deep_view(),
                required: *required,
            },
            SocketAction::TransportPong(payload) => SocketActionView::TransportPong(payload@),
            SocketAction::Close => SocketActionView::Close,
        }
    }
}

/// The subscription filter: `None` admits every device, a list admits the
/// devices it names (so the empty list admits none).
pub type Filter = Option<Seq<Seq<char>>>;

/// Whether the filter admits updates of the device.
pub open spec fn filter_admits(filter: Filter, device_id: Seq<char>) -> bool {
    match filter {
        None => true,
        Some(devices) => devices.contains(device_id),
    }
}

/// The text of the error frame for a malformed client frame.
pub open spec fn malformed_notice(complaint: Seq<char>) -> Seq<char> {
    "Invalid message format: "@ + complaint
}

/// The text of the greeting frame.
pub open spec fn greeting_text() -> Seq<char> {
    "RustBridge WebSocket v"@ + VERSION@
}

/// The filter after an event: a subscribe frame replaces it, an unsubscribe
/// frame empties it, nothing else touches it.
pub open spec fn next_filter(filter: Filter, event: SocketEventView) -> Filter {
    match event {
        SocketEventView::Frame(WsMessageView::Subscribe { devices }) => devices,
        SocketEventView::Frame(WsMessageView::Unsubscribe) => Some(Seq::empty()),
        _ => filter,
    }
}

/// The action for an event under a filter.
pub open spec fn next_action(filter: Filter, event: SocketEventView) -> SocketActionView {
    match event {
        SocketEventView::Frame(WsMessageView::Ping) => SocketActionView::Send {
            message: WsMessageView::Pong,
            required: true,
        },
        SocketEventView::Frame(_) => SocketActionView::Continue,
        SocketEventView::Malformed(complaint) => SocketActionView::Send {
            message: WsMessageView::Error { message: malformed_notice(complaint) },
            required: false,
        },
        SocketEventView::TransportPing(payload) => SocketActionView::TransportPong(payload),
        SocketEventView::Ignored => SocketActionView::Continue,
        SocketEventView::CloseFrame => SocketActionView::Close,
        SocketEventView::ReceiveFailed => SocketActionView::Close,
        SocketEventView::StreamEnded => SocketActionView::Close,
        SocketEventView::Update(update) => if filter_admits(filter, update.device_id) {
            SocketActionView::Send { message: WsMessageView::Update(update), required: true }
        } else {
            SocketActionView::Continue
        },
        SocketEventView::Lagged(_) => SocketActionView::Continue,
        SocketEventView::BusClosed => SocketActionView::Close,
    }
}

/// State of one client connection.
#[derive(Debug)]
pub struct WsSession {
    /// Devices the client subscribed to (`None` = all devices)
    pub subscribed_devices: Option<Vec<String>>,
}

impl DeepView for WsSession {
    type V = Filter;

    open spec fn deep_view(&self) -> Filter {
        self.subscribed_devices.deep_view()
    }
}

impl WsSession {
    /// A fresh session: subscribed to all devices.
    pub fn new() -> (session: Self)
        ensures
            session.deep_view() == Filter::None,
    {
        WsSession { subscribed_devices: None }
    }

    /// The frame that confirms the connection to the client.
    pub fn greeting() -> (message: WsMessage)
        ensures
            message.deep_view() == (WsMessageView::Connected { message: greeting_text() }),
    {
        let text = String::from_str("RustBridge WebSocket v").concat(VERSION);
        WsMessage::Connected { message: text }
    }

    /// Whether the client wants updates of the device.
    pub fn admits(&self, device_id: &str) -> (wanted: bool)
        ensures
            wanted == filter_admits(self.deep_view(), device_id@),
    {
        match &self.subscribed_devices {
            None => true,
            Some(devices) => {
                let mut i: usize = 0;
                while i < devices.len()
                    invariant
                        i <= devices.len(),
                        self.deep_view() == Some(devices.deep_view()),
                        forall|j: int| 0 <= j < i ==> devices.deep_view()[j] != device_id@,
                    decreases devices.len() - i,
                {
                    if str_eq(devices[i].as_str(), device_id) {
                        assert(devices.deep_view()[i as int] == device_id@);
                        return true;
                    }
                    i += 1;
                }
                false
            },
        }
    }

    /// Takes one event: updates the filter and says what to do.
    pub fn step(&mut self, event: SocketEvent) -> (action: SocketAction)
        ensures
            final(self).deep_view() == next_filter(old(self).deep_view(), event.deep_view()),
            action.deep_view() == next_action(old(self).deep_view(), event.deep_view()),
    {
        match event {
            SocketEvent::Frame(message) => match message {
                WsMessage::Subscribe { devices } => {
                    self.subscribed_devices = devices;
                    SocketAction::Continue
                },
                WsMessage::Unsubscribe => {
                    let none: Vec<String> = Vec::new();
                    assert(none.deep_view() =~= Seq::<Seq<char>>::empty());
                    self.subscribed_devices = Some(none);
                    SocketAction::Continue
                },
                WsMessage::Ping => SocketAction::Send { message: WsMessage::Pong, required: true },
                _ => SocketAction::Continue,
            },
            SocketEvent::Malformed(complaint) => {
                let text = String::from_str("Invalid message format: ").concat(
                    complaint.as_str(),
                );
                SocketAction::Send { message: WsMessage::Error { message: text }, required: false }
            },
            SocketEvent::TransportPing(payload) => SocketAction::TransportPong(payload),
            SocketEvent::Ignored => SocketAction::Continue,
            SocketEvent::CloseFrame => SocketAction::Close,
            SocketEvent::ReceiveFailed => SocketAction::Close,
            SocketEvent::StreamEnded => SocketAction::Close,
            SocketEvent::Update(update) => {
                if self.admits(update.device_id.as_str()) {
                    SocketAction::Send { message: WsMessage::Update(update), required: true }
                } else {
                    SocketAction::Continue
                }
            },
            SocketEvent::Lagged(_) => SocketAction::Continue,
            SocketEvent::BusClosed => SocketAction::Close,
        }
    }

    /// Whether the session goes on after the transport layer tried to send
    /// what an action asked for.
    pub fn continues_after(action: &SocketAction, sent: bool) -> (goes_on: bool)
        ensures
            goes_on == match action.deep_view() {
                SocketActionView::Continue => true,
                SocketActionView::Send { required, .. } => sent || !required,
                SocketActionView::TransportPong(_) => sent,
                SocketActionView::Close => false,
            },
    {
        match action {
            SocketAction::Continue => true,
            SocketAction::Send { required, .. } => sent || !*required,
            SocketAction::TransportPong(_) => sent,
            SocketAction::Close => false,
        }
    }
}

/// A new session admits every device.
pub proof fn lemma_new_session_admits_all(device_id: Seq<char>)
    ensures
        filter_admits(Filter::None, device_id),
{
}

/// After an unsubscribe frame no update is sent, whatever the device.
pub proof fn lemma_unsubscribed_receives_nothing(filter: Filter, update: RegisterUpdateView)
    ensures
        next_action(
            next_filter(filter, SocketEventView::Frame(WsMessageView::Unsubscribe)),
            SocketEventView::Update(update),
        ) == SocketActionView::Continue,
{
}

/// After a subscribe frame, an update is sent exactly when the frame has no
/// list or the list names the update's device; the filter before the frame
/// plays no part.
pub proof fn lemma_subscribe_replaces_filter(
    filter: Filter,
    devices: Option<Seq<Seq<char>>>,
    update: RegisterUpdateView,
)
    ensures
        next_action(
            next_filter(filter, SocketEventView::Frame(WsMessageView::Subscribe { devices })),
            SocketEventView::Update(update),
        ) == if devices is None || devices->0.contains(update.device_id) {
            SocketActionView::Send { message: WsMessageView::Update(update), required: true }
        } else {
            SocketActionView::Continue
        },
{
}

/// Falling behind on the bus never ends a session or changes its filter.
pub proof fn lemma_lag_is_survived(filter: Filter, missed: u64)
    ensures
        next_filter(filter, SocketEventView::Lagged(missed)) == filter,
        next_action(filter, SocketEventView::Lagged(missed)) == SocketActionView::Continue,
{
}

} // verus!
