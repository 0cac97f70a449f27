//! The text feed: one client at a time sends heart-rate records as text
//! messages over a persistent connection.
//!
//! This module decides; it does not wait. Whoever owns the connection hands
//! over what happened, a message with what it decoded to, a failure, a
//! cancellation, and is told what to report and what to do next.

use vstd::prelude::*;

use super::twitcher::Twitcher;
use super::{
    default_status, fold_update, BatteryLevel, HeartRateStatus, RrInterval, StatusUpdate,
    StatusView, NANOS_PER_MILLI,
};
use crate::settings::WebSocketSettings;

verus! {

/// One record of the text feed, decoded. The heart rate is required; the
/// newest interval in milliseconds and the battery charge in percent may be
/// missing.
#[derive(Clone, Copy, Debug, PartialEq, Eq, Structural)]
pub struct JSONHeartRate {
    pub bpm: u16,
    pub latest_rr_ms: Option<u64>,
    pub battery: Option<u8>,
}

/// The update that a record amounts to.
pub open spec fn update_of_record(record: JSONHeartRate) -> StatusUpdate {
    StatusUpdate {
        bpm: record.bpm,
        latest_interval: match record.latest_rr_ms {
            Some(ms) => Some(RrInterval { nanos: (ms * NANOS_PER_MILLI) as u128 }),
            None => None,
        },
        battery: record.battery,
    }
}

impl JSONHeartRate {
    /// The update that this record amounts to.
    pub fn to_update(&self) -> (u: StatusUpdate)
        ensures
            u == update_of_record(*self),
    {
        StatusUpdate {
            bpm: self.bpm,
            latest_interval: match self.latest_rr_ms {
                Some(ms) => Some(RrInterval::from_millis(ms)),
                None => None,
            },
            battery: self.battery,
        }
    }
}

/// What the connection yielded.
#[derive(Debug, Clone, PartialEq)]
pub enum Incoming {
    /// A text message, with the record it decoded to, if it did.
    Text { raw: String, decoded: Option<JSONHeartRate> },
    /// A message of another kind, as it prints.
    NonText { shown: String },
    /// Receiving failed; the failure as it prints.
    Failed { shown: String },
    /// The client has gone.
    Closed,
}

/// A notice for the user.
#[derive(Debug, Clone, PartialEq)]
pub enum ErrorPopup {
    /// Goes away by itself.
    Intermittent(String),
    /// Stays until the user dismisses it.
    UserMustDismiss(String),
}

/// What the user interface is told.
#[derive(Debug, Clone, PartialEq)]
pub enum AppUpdate {
    HeartRateStatus(HeartRateStatus),
    Error(ErrorPopup),
}

/// A notice as mathematical values.
pub enum PopupView {
    Intermittent(Seq<char>),
    UserMustDismiss(Seq<char>),
}

/// An update for the user interface as mathematical values.
pub enum AppUpdateView {
    HeartRateStatus(StatusView),
    Error(PopupView),
}

impl View for ErrorPopup {
    type V = PopupView;

    open spec fn view(&self) -> PopupView {
        match self {
            ErrorPopup::Intermittent(text) => PopupView::Intermittent(text@),
            ErrorPopup::UserMustDismiss(text) => PopupView::UserMustDismiss(text@),
        }
    }
}

impl View for AppUpdate {
    type V = AppUpdateView;

    open spec fn view(&self) -> AppUpdateView {
        match self {
            AppUpdate::HeartRateStatus(status) => AppUpdateView::HeartRateStatus(status@),
            AppUpdate::Error(popup) => AppUpdateView::Error(popup@),
        }
    }
}

/// What came in, as mathematical values.
pub enum IncomingView {
    Text { raw: Seq<char>, decoded: Option<JSONHeartRate> },
    NonText { shown: Seq<char> },
    Failed { shown: Seq<char> },
    Closed,
}

impl View for Incoming {
    type V = IncomingView;

    open spec fn view(&self) -> IncomingView {
        match self {
            Incoming::Text { raw, decoded } => IncomingView::Text { raw: raw@, decoded: *decoded },
            Incoming::NonText { shown } => IncomingView::NonText { shown: shown@ },
            Incoming::Failed { shown } => IncomingView::Failed { shown: shown@ },
            Incoming::Closed => IncomingView::Closed,
        }
    }
}

/// The notice for a text message that is no heart-rate record.
pub open spec fn invalid_record_text(raw: Seq<char>) -> Seq<char> {
    "Invalid heart rate message: "@ + raw
}

/// The notice for a message that is not text.
pub open spec fn invalid_kind_text(shown: Seq<char>) -> Seq<char> {
    "Invalid message type (expected text): "@ + shown
}

/// The notice for a failure to receive.
pub open spec fn receive_failure_text(shown: Seq<char>) -> Seq<char> {
    "Error receiving message: "@ + shown
}

/// The notice for a client that has gone.
pub open spec fn disconnected_text() -> Seq<char> {
    "Websocket client disconnected"@
}

/// The notice for a connection that could not be taken up.
pub open spec fn handshake_failure_text(shown: Seq<char>) -> Seq<char> {
    "Handshake failed: "@ + shown
}

/// The status that the feed holds after `item`, with the threshold in
/// millionths: a decoded record is folded in, anything else changes nothing.
pub open spec fn status_after(status: StatusView, item: IncomingView, threshold_ppm: u32)
    -> StatusView {
    match item {
        IncomingView::Text { raw, decoded: Some(record) } => fold_update(
            status,
            update_of_record(record),
            threshold_ppm,
        ),
        _ => status,
    }
}

/// What the user interface is told about `item`: the new status for a
/// decoded record, a notice for anything else.
pub open spec fn report_for(status: StatusView, item: IncomingView, threshold_ppm: u32)
    -> AppUpdateView {
    match item {
        IncomingView::Text { raw, decoded: Some(record) } => AppUpdateView::HeartRateStatus(
            status_after(status, item, threshold_ppm),
        ),
        IncomingView::Text { raw, decoded: None } => AppUpdateView::Error(
            PopupView::Intermittent(invalid_record_text(raw)),
        ),
        IncomingView::NonText { shown } => AppUpdateView::Error(
            PopupView::UserMustDismiss(invalid_kind_text(shown)),
        ),
        IncomingView::Failed { shown } => AppUpdateView::Error(
            PopupView::Intermittent(receive_failure_text(shown)),
        ),
        IncomingView::Closed => AppUpdateView::Error(PopupView::Intermittent(disconnected_text())),
    }
}

/// Whether the connection is kept after `item`: a message keeps it, bad or
/// good; a failure or the client's leaving ends it.
pub open spec fn keeps_connection(item: IncomingView) -> bool {
    item is Text || item is NonText
}

/// `prefix` followed by `detail`.
fn prefixed(prefix: &str, detail: &str) -> (text: String)
    ensures
        text@ == prefix@ + detail@,
{
    let mut text = String::from_str(prefix);
    text.append(detail);
    text
}

/// The notice for a connection that could not be taken up, `shown` being the
/// failure as it prints. The user has to dismiss it.
pub fn handshake_failure(shown: &str) -> (popup: ErrorPopup)
    ensures
        popup@ == PopupView::UserMustDismiss(handshake_failure_text(shown@)),
{
    ErrorPopup::UserMustDismiss(prefixed("Handshake failed: ", shown))
}

/// The port to listen on: the override where there is one, else the
/// configured port.
pub fn listen_port(websocket_settings: &WebSocketSettings, port_override: Option<u16>) -> (port:
    u16)
    ensures
        port == match port_override {
            Some(p) => p,
            None => websocket_settings.port,
        },
{
    match port_override {
        Some(p) => p,
        None => websocket_settings.port,
    }
}

/// The feed's side of the status: what the records received so far add up to.
#[derive(Debug)]
pub struct WebsocketActor {
    hr_status: HeartRateStatus,
    twitcher: Twitcher,
}

impl WebsocketActor {
    /// The status held.
    pub closed spec fn status(&self) -> StatusView {
        self.hr_status@
    }

    /// The twitch threshold in millionths.
    pub closed spec fn threshold_ppm(&self) -> u32 {
        self.twitcher.threshold_ppm()
    }

    /// A feed that has received nothing: the default status, but with the
    /// battery marked as not reported, and a twitch detector with the given
    /// threshold in millionths.
    pub fn build(rr_twitch_threshold_ppm: u32) -> (actor: WebsocketActor)
        ensures
            actor.threshold_ppm() == rr_twitch_threshold_ppm,
            actor.status() == (StatusView {
                battery_level: BatteryLevel::NotReported,
                ..default_status()
            }),
    {
        let mut hr_status = HeartRateStatus::default();
        hr_status.battery_level = BatteryLevel::NotReported;
        WebsocketActor { hr_status, twitcher: Twitcher::new(rr_twitch_threshold_ppm) }
    }

    /// The status held.
    pub fn hr_status(&self) -> (status: &HeartRateStatus)
        ensures
            status@ == self.status(),
    {
        &self.hr_status
    }

    /// Takes what the connection yielded. Returns what to tell the user
    /// interface, and whether to keep the connection.
    pub fn handle_ws_message(&mut self, item: Incoming) -> (out: (AppUpdate, bool))
        ensures
            final(self).threshold_ppm() == old(self).threshold_ppm(),
            final(self).status() == status_after(old(self).status(), item@, old(self).threshold_ppm()),
            out.0@ == report_for(old(self).status(), item@, old(self).threshold_ppm()),
            out.1 == keeps_connection(item@),
    {
        match item {
            Incoming::Text { raw, decoded } => {
                match decoded {
                    Some(record) => {
                        let update = record.to_update();
                        self.hr_status.apply_update(&update, &self.twitcher);
                        (AppUpdate::HeartRateStatus(self.hr_status.clone()), true)
                    },
                    None => {
                        let text = prefixed("Invalid heart rate message: ", raw.as_str());
                        (AppUpdate::Error(ErrorPopup::Intermittent(text)), true)
                    },
                }
            },
            Incoming::NonText { shown } => {
                let text = prefixed("Invalid message type (expected text): ", shown.as_str());
                (AppUpdate::Error(ErrorPopup::UserMustDismiss(text)), true)
            },
            Incoming::Failed { shown } => {
                let text = prefixed("Error receiving message: ", shown.as_str());
                (AppUpdate::Error(ErrorPopup::Intermittent(text)), false)
            },
            Incoming::Closed => {
                let text = String::from_str("Websocket client disconnected");
                (AppUpdate::Error(ErrorPopup::Intermittent(text)), false)
            },
        }
    }
}

/// Where the listener stands with its one client.
#[derive(Clone, Copy, Debug, PartialEq, Eq, Structural)]
pub enum SessionState {
    /// Waiting for a client to connect.
    Listening,
    /// A client has connected; the protocol's handshake is under way.
    Handshaking,
    /// Messages are being received.
    Receiving,
    /// The connection has ended and is being let go.
    Closing,
    /// The listener has stopped for good.
    Terminated,
}

/// What happened to the listener.
#[derive(Clone, Copy, Debug, PartialEq, Eq, Structural)]
pub enum SessionEvent {
    /// A client connected.
    Accepted,
    /// Taking a client's connection failed.
    AcceptFailed,
    /// The handshake went through.
    HandshakeCompleted,
    /// The handshake failed.
    HandshakeFailed,
    /// Something came over the connection and has been handled;
    /// `keep_connection` is what the handling said.
    Handled { keep_connection: bool },
    /// The connection has been let go.
    Released,
    /// The session is called off.
    Cancelled,
}

/// What the listener does next.
#[derive(Clone, Copy, Debug, PartialEq, Eq, Structural)]
pub enum SessionAction {
    /// Wait for a client.
    AwaitConnection,
    /// Run the handshake with the client that connected.
    Handshake,
    /// Wait for the next message.
    AwaitMessage,
    /// Let the connection go.
    Release,
    /// Close the open connection in good order, then stop.
    CloseAndStop,
    /// Stop.
    Stop,
}

/// Whether a client's connection is open in `state`.
pub open spec fn has_connection(state: SessionState) -> bool {
    state == SessionState::Handshaking || state == SessionState::Receiving || state
        == SessionState::Closing
}

/// The state that follows `state` on `event`.
///
/// A cancellation ends the session from anywhere. Otherwise each state moves
/// on the events it waits for and stays on any other: listening until a
/// client connects; handshaking until the handshake ends, well or badly;
/// receiving as long as the connection is kept; closing until the connection
/// is let go.
pub open spec fn next_state(state: SessionState, event: SessionEvent) -> SessionState {
    match (state, event) {
        (SessionState::Terminated, _) => SessionState::Terminated,
        (_, SessionEvent::Cancelled) => SessionState::Terminated,
        (SessionState::Listening, SessionEvent::Accepted) => SessionState::Handshaking,
        (SessionState::Handshaking, SessionEvent::HandshakeCompleted) => SessionState::Receiving,
        (SessionState::Handshaking, SessionEvent::HandshakeFailed) => SessionState::Listening,
        (SessionState::Receiving, SessionEvent::Handled { keep_connection }) => if keep_connection {
            SessionState::Receiving
        } else {
            SessionState::Closing
        },
        (SessionState::Closing, SessionEvent::Released) => SessionState::Listening,
        _ => state,
    }
}

/// What to do on `event` in `state`: what the next state waits for, but for
/// a cancellation, which stops the listener, closing the connection first
/// where one is open.
pub open spec fn next_action(state: SessionState, event: SessionEvent) -> SessionAction {
    if state != SessionState::Terminated && event == SessionEvent::Cancelled && has_connection(
        state,
    ) {
        SessionAction::CloseAndStop
    } else {
        match next_state(state, event) {
            SessionState::Listening => SessionAction::AwaitConnection,
            SessionState::Handshaking => SessionAction::Handshake,
            SessionState::Receiving => SessionAction::AwaitMessage,
            SessionState::Closing => SessionAction::Release,
            SessionState::Terminated => SessionAction::Stop,
        }
    }
}

/// Moves the listener on by one event. Returns the state it is in then and
/// what it is to do.
pub fn session_step(state: SessionState, event: SessionEvent) -> (out: (
    SessionState,
    SessionAction,
))
    ensures
        out.0 == next_state(state, event),
        out.1 == next_action(state, event),
{
    let next: SessionState = match state {
        SessionState::Terminated => SessionState::Terminated,
        SessionState::Listening => match event {
            SessionEvent::Cancelled => SessionState::Terminated,
            SessionEvent::Accepted => SessionState::Handshaking,
            _ => SessionState::Listening,
        },
        SessionState::Handshaking => match event {
            SessionEvent::Cancelled => SessionState::Terminated,
            SessionEvent::HandshakeCompleted => SessionState::Receiving,
            SessionEvent::HandshakeFailed => SessionState::Listening,
            _ => SessionState::Handshaking,
        },
        SessionState::Receiving => match event {
            SessionEvent::Cancelled => SessionState::Terminated,
            SessionEvent::Handled { keep_connection } => if keep_connection {
                SessionState::Receiving
            } else {
                SessionState::Closing
            },
            _ => SessionState::Receiving,
        },
        SessionState::Closing => match event {
            SessionEvent::Cancelled => SessionState::Terminated,
            SessionEvent::Released => SessionState::Listening,
            _ => SessionState::Closing,
        },
    };
    let open_connection: bool = match state {
        SessionState::Handshaking | SessionState::Receiving | SessionState::Closing => true,
        _ => false,
    };
    let cancelled: bool = match event {
        SessionEvent::Cancelled => true,
        _ => false,
    };
    let action: SessionAction = if cancelled && open_connection {
        SessionAction::CloseAndStop
    } else {
        match next {
            SessionState::Listening => SessionAction::AwaitConnection,
            SessionState::Handshaking => SessionAction::Handshake,
            SessionState::Receiving => SessionAction::AwaitMessage,
            SessionState::Closing => SessionAction::Release,
            SessionState::Terminated => SessionAction::Stop,
        }
    };
    (next, action)
}

/// A cancellation ends the session from every state, and nothing brings an
/// ended session back.
pub proof fn lemma_cancellation_wins(state: SessionState, event: SessionEvent)
    ensures
        next_state(state, SessionEvent::Cancelled) == SessionState::Terminated,
        next_state(SessionState::Terminated, event) == SessionState::Terminated,
        next_action(SessionState::Terminated, event) == SessionAction::Stop,
{
}

/// One bad message does not cost the connection: after any message, text or
/// not, decoded or not, the listener goes on receiving.
pub proof fn lemma_bad_message_keeps_connection(item: IncomingView)
    requires
        item is Text || item is NonText,
    ensures
        next_state(
            SessionState::Receiving,
            SessionEvent::Handled { keep_connection: keeps_connection(item) },
        ) == SessionState::Receiving,
{
}

} // verus!
