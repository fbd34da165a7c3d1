//! The socket session: its frames, its messages and its state machine.
//!
//! The session itself does no input or output. Whoever owns the socket hands
//! it what happened, as an [`Input`], and carries out the [`Action`] that it
//! answers with.

pub mod events;
pub mod subscriptions;

use vstd::prelude::*;
use crate::json::Json;
use crate::json::parse_json;
use crate::json::parsed_json;
use crate::eventsub::events::Event;
use crate::eventsub::events::EventsubMessage;
use crate::eventsub::events::EventsubMessageType;
use crate::eventsub::events::Payload;
use crate::eventsub::events::Reconnect;

verus! {

/// A text that could not be read as a message, kept for diagnostics.
#[derive(Debug)]
pub struct DecodeError {
    pub text: String,
}

/// Why a session could not be established.
#[derive(Debug)]
pub enum EventsubError {
    /// The socket could not be opened or read; the text says why.
    WebsocketError(String),
    /// The first message was no welcome.
    IncorrectMessage,
    /// The welcome named no session.
    NoSessionID,
    /// The first message could not be read.
    ParseError(DecodeError),
}

/// One frame of the socket.
#[derive(Debug)]
pub enum Frame {
    Text(String),
    Binary(Vec<u8>),
    Ping(Vec<u8>),
    Pong(Vec<u8>),
    /// A request to close, with the reason where one was given.
    Close(Option<String>),
    /// A frame that the transport did not take apart.
    Raw,
}

/// What a frame means to the session.
#[derive(Debug)]
pub enum Classified<'a> {
    TextPayload(&'a String),
    Ping,
    Pong,
    Close(&'a Option<String>),
    UnsupportedFrame,
}

/// What a frame means to the session: binary and raw frames are not
/// supported.
pub open spec fn spec_classify<'a>(frame: &'a Frame) -> Classified<'a> {
    match frame {
        Frame::Text(text) => Classified::TextPayload(text),
        Frame::Ping(_) => Classified::Ping,
        Frame::Pong(_) => Classified::Pong,
        Frame::Close(reason) => Classified::Close(reason),
        Frame::Binary(_) | Frame::Raw => Classified::UnsupportedFrame,
    }
}

/// Classifies a frame.
pub fn classify<'a>(frame: &'a Frame) -> (r: Classified<'a>)
    ensures
        r == spec_classify(frame),
{
    match frame {
        Frame::Text(text) => Classified::TextPayload(text),
        Frame::Ping(_) => Classified::Ping,
        Frame::Pong(_) => Classified::Pong,
        Frame::Close(reason) => Classified::Close(reason),
        Frame::Binary(_) | Frame::Raw => Classified::UnsupportedFrame,
    }
}

/// What a text frame turned out to be.
#[derive(Debug)]
pub enum Reading {
    /// No message.
    Undecodable,
    /// A welcome but for the session's identifier.
    WelcomeWithoutId,
    Message(EventsubMessage),
}

/// What the owner of the socket reports to the session.
#[derive(Debug)]
pub enum Input {
    /// The connection that was asked for is open.
    Connected,
    /// It could not be opened.
    ConnectFailed(String),
    /// A frame was read.
    Frame(Frame),
    /// The connection has closed in good order.
    Closed(String),
    /// Reading failed.
    Failed(String),
}

/// What an input means to the session, with what the session needs of it.
pub enum Signal {
    Connected,
    ConnectFailed(String),
    Closed(String),
    Failed(String),
    Ping,
    Close,
    Unsupported,
    /// A text that is no message.
    Undecodable(String),
    WelcomeWithoutId,
    /// A welcome to the session with this identifier.
    Welcome(String),
    /// A notification; its event is to be read from the second value as the
    /// first one says.
    Notification(Seq<char>, Json),
    /// A request to move to this address.
    Reconnect(String),
    Revocation,
    Keepalive,
}

/// Where a session stands.
#[derive(Clone, Copy, Debug, PartialEq, Eq, Structural)]
pub enum Phase {
    Connecting,
    AwaitingWelcome,
    Active,
    Reconnecting,
    Closed,
}

/// What the owner of the socket is to do next.
#[derive(Debug)]
pub enum Action {
    /// Read the next frame.
    Continue,
    /// The session is established: start delivering, then read on.
    Started,
    /// Hand the event that comes with this answer to the consumer, then read on.
    Deliver,
    /// Send a close frame, as well as can be done, and stop.
    SendClose,
    /// Open a connection to this address and report how it went.
    Connect(String),
    /// Stop: the sequence of events has ended.
    Stop,
    /// Give up establishing the session, with this error.
    Fail(EventsubError),
}

/// How loudly an input is to be logged.
#[derive(Clone, Copy, Debug, PartialEq, Eq, Structural)]
pub enum Severity {
    Quiet,
    Info,
    Warn,
    Error,
}

/// The session's answer to one input.
#[derive(Debug)]
pub struct Reaction {
    pub action: Action,
    pub event: Option<Event>,
    pub severity: Severity,
}

/// The state of a session as contracts speak of it.
pub struct Model {
    pub phase: Phase,
    pub session_id: String,
    /// The addresses that the session has been asked to move to and has not
    /// opened yet; the last one is opened first.
    pub pending: Seq<String>,
    /// Whether a connection has been asked for and not been reported yet.
    pub opening: bool,
}

/// The state of a session: the part of it that reads the socket.
#[derive(Debug)]
pub struct EventsubConnection {
    pub phase: Phase,
    pub session_id: String,
    pub pending: Vec<String>,
    pub opening: bool,
}

/// What a value that was read from a text means.
pub open spec fn json_signal(parsed: Option<Json>, text: String) -> Signal {
    match parsed {
        None => Signal::Undecodable(text),
        Some(j) => if EventsubMessage::parses(j) {
            let payload = j.spec_get("payload"@).unwrap();
            match EventsubMessage::spec_kind(j).unwrap() {
                EventsubMessageType::SessionWelcome => Signal::Welcome(
                    payload.spec_get("session"@).unwrap().spec_text("id"@).unwrap(),
                ),
                EventsubMessageType::SessionReconnect => Signal::Reconnect(
                    payload.spec_get("session"@).unwrap().spec_text("reconnect_url"@).unwrap(),
                ),
                EventsubMessageType::SessionKeepalive => Signal::Keepalive,
                EventsubMessageType::Revocation => Signal::Revocation,
                EventsubMessageType::Notification => Signal::Notification(
                    payload.spec_get("subscription"@).unwrap().spec_text("type"@).unwrap()@,
                    payload.spec_get("event"@).unwrap(),
                ),
            }
        } else if EventsubMessage::spec_lacks_session_id(j) {
            Signal::WelcomeWithoutId
        } else {
            Signal::Undecodable(text)
        },
    }
}

/// What a text frame means.
pub open spec fn text_signal(text: String) -> Signal {
    json_signal(parsed_json(text@), text)
}

/// What an input means.
pub open spec fn signal_of(input: Input) -> Signal {
    match input {
        Input::Connected => Signal::Connected,
        Input::ConnectFailed(why) => Signal::ConnectFailed(why),
        Input::Closed(why) => Signal::Closed(why),
        Input::Failed(why) => Signal::Failed(why),
        Input::Frame(frame) => match spec_classify(&frame) {
            Classified::TextPayload(text) => text_signal(*text),
            Classified::Ping => Signal::Ping,
            Classified::Close(_) => Signal::Close,
            Classified::Pong | Classified::UnsupportedFrame => Signal::Unsupported,
        },
    }
}

/// Whether a reading is what the value means.
pub open spec fn reading_of(parsed: Option<Json>, r: Reading) -> bool {
    match parsed {
        None => r is Undecodable,
        Some(j) => if EventsubMessage::parses(j) {
            r matches Reading::Message(m) && EventsubMessage::parsed_as(j, m)
        } else if EventsubMessage::spec_lacks_session_id(j) {
            r is WelcomeWithoutId
        } else {
            r is Undecodable
        },
    }
}

/// Reads a message from what the parser made of a text.
pub fn read_json(parsed: &Option<Json>) -> (r: Reading)
    ensures
        reading_of(*parsed, r),
{
    match parsed {
        None => Reading::Undecodable,
        Some(j) => match EventsubMessage::from_json(j) {
            Some(m) => Reading::Message(m),
            None => if EventsubMessage::lacks_session_id(j) {
                Reading::WelcomeWithoutId
            } else {
                Reading::Undecodable
            },
        },
    }
}

impl Model {
    /// The state with another phase.
    pub open spec fn at(self, phase: Phase) -> Model {
        Model { phase, ..self }
    }

    /// Whether the session reads frames and hands events on.
    pub open spec fn listening(self) -> bool {
        (self.phase == Phase::Active || self.phase == Phase::Reconnecting) && !self.opening
    }

    /// The state when the connection that is read has come to its end: the
    /// session moves to the address it was last asked to move to, or is over.
    pub open spec fn after_end(self) -> (Model, Action) {
        if self.pending.len() > 0 {
            (
                Model {
                    phase: Phase::Reconnecting,
                    pending: self.pending.drop_last(),
                    opening: true,
                    ..self
                },
                Action::Connect(self.pending.last()),
            )
        } else {
            (self.at(Phase::Closed), Action::Stop)
        }
    }

    /// The state after an input, and the action that answers it.
    pub open spec fn step(self, signal: Signal) -> (Model, Action) {
        match self.phase {
            Phase::Closed => (self, Action::Stop),
            Phase::Connecting => match signal {
                Signal::Connected => (self.at(Phase::AwaitingWelcome), Action::Continue),
                Signal::ConnectFailed(why) => (
                    self.at(Phase::Closed),
                    Action::Fail(EventsubError::WebsocketError(why)),
                ),
                _ => (self, Action::Continue),
            },
            Phase::AwaitingWelcome => match signal {
                Signal::Welcome(id) => (
                    Model { phase: Phase::Active, session_id: id, ..self },
                    Action::Started,
                ),
                Signal::WelcomeWithoutId => (
                    self.at(Phase::Closed),
                    Action::Fail(EventsubError::NoSessionID),
                ),
                Signal::Undecodable(text) => (
                    self.at(Phase::Closed),
                    Action::Fail(EventsubError::ParseError(DecodeError { text })),
                ),
                Signal::Closed(why) | Signal::Failed(why) | Signal::ConnectFailed(why) => (
                    self.at(Phase::Closed),
                    Action::Fail(EventsubError::WebsocketError(why)),
                ),
                _ => (self.at(Phase::Closed), Action::Fail(EventsubError::IncorrectMessage)),
            },
            Phase::Active | Phase::Reconnecting => if self.opening {
                match signal {
                    Signal::Connected => (
                        Model {
                            phase: if self.pending.len() > 0 {
                                Phase::Reconnecting
                            } else {
                                Phase::Active
                            },
                            opening: false,
                            ..self
                        },
                        Action::Continue,
                    ),
                    Signal::ConnectFailed(_) => (self.at(Phase::Closed), Action::Stop),
                    _ => (self, Action::Continue),
                }
            } else {
                match signal {
                    Signal::Notification(_, _) => (self, Action::Deliver),
                    Signal::Reconnect(address) => (
                        Model {
                            phase: Phase::Reconnecting,
                            pending: self.pending.push(address),
                            ..self
                        },
                        Action::Continue,
                    ),
                    Signal::Revocation => (self.at(Phase::Closed), Action::SendClose),
                    Signal::Close | Signal::Closed(_) => self.after_end(),
                    Signal::Failed(_) => self.after_end(),
                    _ => (self, Action::Continue),
                }
            },
        }
    }

    /// How loudly the input is to be logged.
    pub open spec fn severity(self, signal: Signal) -> Severity {
        match self.phase {
            Phase::Closed => Severity::Quiet,
            Phase::Connecting => match signal {
                Signal::Connected => Severity::Quiet,
                Signal::ConnectFailed(_) => Severity::Error,
                _ => Severity::Warn,
            },
            Phase::AwaitingWelcome => match signal {
                Signal::Welcome(_) => Severity::Quiet,
                _ => Severity::Error,
            },
            Phase::Active | Phase::Reconnecting => if self.opening {
                match signal {
                    Signal::Connected => Severity::Quiet,
                    Signal::ConnectFailed(_) => Severity::Error,
                    _ => Severity::Warn,
                }
            } else {
                match signal {
                    Signal::Notification(_, _) | Signal::Ping | Signal::Revocation => {
                        Severity::Quiet
                    },
                    Signal::Reconnect(_) | Signal::Close | Signal::Closed(_) => Severity::Info,
                    Signal::Failed(_) | Signal::Undecodable(_) => Severity::Error,
                    _ => Severity::Warn,
                }
            },
        }
    }

    /// The state after a run of inputs.
    pub open spec fn run(self, signals: Seq<Signal>) -> Model
        decreases signals.len(),
    {
        if signals.len() == 0 {
            self
        } else {
            self.run(signals.drop_last()).step(signals.last()).0
        }
    }

    /// The places, in a run of inputs, of those whose events are handed on.
    pub open spec fn deliveries(self, signals: Seq<Signal>) -> Seq<int>
        decreases signals.len(),
    {
        if signals.len() == 0 {
            Seq::empty()
        } else {
            let before = self.deliveries(signals.drop_last());
            if self.run(signals.drop_last()).step(signals.last()).1 is Deliver {
                before.push(signals.len() - 1)
            } else {
                before
            }
        }
    }
}

/// Whether `event` is the event that the input at a place of delivery carries.
pub open spec fn event_of(signal: Signal, event: Event) -> bool {
    signal matches Signal::Notification(kind, j) && Event::parsed_as(kind, j, event)
}

impl View for EventsubConnection {
    type V = Model;

    open spec fn view(&self) -> Model {
        Model {
            phase: self.phase,
            session_id: self.session_id,
            pending: self.pending@,
            opening: self.opening,
        }
    }
}

impl EventsubConnection {
    /// A session that has not connected yet.
    pub fn connecting() -> (r: Self)
        ensures
            r@.phase == Phase::Connecting,
            r@.pending.len() == 0,
            !r@.opening,
            r@.session_id@.len() == 0,
    {
        EventsubConnection {
            phase: Phase::Connecting,
            session_id: String::new(),
            pending: Vec::new(),
            opening: false,
        }
    }

    /// Takes note of a request to move to another address. The session goes
    /// on reading the connection it has; the address is opened when that
    /// connection has come to its end.
    pub fn reconnect(&mut self, session: Reconnect)
        ensures
            final(self)@ == (Model {
                phase: Phase::Reconnecting,
                pending: old(self)@.pending.push(session.reconnect_url),
                ..old(self)@
            }),
    {
        self.pending.push(session.reconnect_url);
        self.phase = Phase::Reconnecting;
    }

    /// The connection that was read has come to its end.
    fn end_of_connection(&mut self) -> (r: Action)
        ensures
            (final(self)@, r) == old(self)@.after_end(),
    {
        match self.pending.pop() {
            Some(address) => {
                self.phase = Phase::Reconnecting;
                self.opening = true;
                Action::Connect(address)
            },
            None => {
                self.phase = Phase::Closed;
                assert(self.pending@ =~= old(self).pending@);
                Action::Stop
            },
        }
    }

    /// Answers what the parser made of a text frame; `text` is the frame's
    /// text.
    pub fn handle_parsed(&mut self, parsed: &Option<Json>, text: &String) -> (r: Reaction)
        ensures
            (final(self)@, r.action) == old(self)@.step(json_signal(*parsed, *text)),
            r.severity == old(self)@.severity(json_signal(*parsed, *text)),
            r.event is Some <==> r.action is Deliver,
            r.event matches Some(e) ==> event_of(json_signal(*parsed, *text), e),
    {
        let reading = read_json(parsed);
        match self.phase {
            Phase::Closed => Reaction {
                action: Action::Stop,
                event: None,
                severity: Severity::Quiet,
            },
            Phase::Connecting => Reaction {
                action: Action::Continue,
                event: None,
                severity: Severity::Warn,
            },
            Phase::AwaitingWelcome => {
                let outcome = match reading {
                    Reading::Message(message) => match message.payload {
                        Payload::Welcome { session } => Ok(session.id),
                        _ => Err(EventsubError::IncorrectMessage),
                    },
                    Reading::WelcomeWithoutId => Err(EventsubError::NoSessionID),
                    Reading::Undecodable => Err(
                        EventsubError::ParseError(DecodeError { text: text.clone() }),
                    ),
                };
                match outcome {
                    Ok(id) => {
                        self.phase = Phase::Active;
                        self.session_id = id;
                        Reaction {
                            action: Action::Started,
                            event: None,
                            severity: Severity::Quiet,
                        }
                    },
                    Err(error) => {
                        self.phase = Phase::Closed;
                        Reaction {
                            action: Action::Fail(error),
                            event: None,
                            severity: Severity::Error,
                        }
                    },
                }
            },
            Phase::Active | Phase::Reconnecting => {
                if self.opening {
                    return Reaction {
                        action: Action::Continue,
                        event: None,
                        severity: Severity::Warn,
                    };
                }
                match reading {
                    Reading::Message(message) => match message.payload {
                        Payload::Notification { subscription: _, event } => Reaction {
                            action: Action::Deliver,
                            event: Some(event),
                            severity: Severity::Quiet,
                        },
                        Payload::Reconnect { session } => {
                            self.reconnect(session);
                            Reaction {
                                action: Action::Continue,
                                event: None,
                                severity: Severity::Info,
                            }
                        },
                        Payload::Revocation { subscription: _ } => {
                            self.phase = Phase::Closed;
                            Reaction {
                                action: Action::SendClose,
                                event: None,
                                severity: Severity::Quiet,
                            }
                        },
                        _ => Reaction {
                            action: Action::Continue,
                            event: None,
                            severity: Severity::Warn,
                        },
                    },
                    Reading::WelcomeWithoutId => Reaction {
                        action: Action::Continue,
                        event: None,
                        severity: Severity::Warn,
                    },
                    Reading::Undecodable => Reaction {
                        action: Action::Continue,
                        event: None,
                        severity: Severity::Error,
                    },
                }
            },
        }
    }

    /// Answers a text frame.
    pub fn handle_notification(&mut self, text: &String) -> (r: Reaction)
        ensures
            (final(self)@, r.action) == old(self)@.step(text_signal(*text)),
            r.severity == old(self)@.severity(text_signal(*text)),
            r.event is Some <==> r.action is Deliver,
            r.event matches Some(e) ==> event_of(text_signal(*text), e),
    {
        let parsed = parse_json(text.as_str());
        self.handle_parsed(&parsed, text)
    }

    /// Answers an input that carries nothing of its own.
    fn handle_plain(&mut self, kind: Plain) -> (r: Reaction)
        ensures
            (final(self)@, r.action) == old(self)@.step(kind.signal()),
            r.severity == old(self)@.severity(kind.signal()),
            r.event is None,
            !(r.action is Deliver),
    {
        match self.phase {
            Phase::Closed => Reaction {
                action: Action::Stop,
                event: None,
                severity: Severity::Quiet,
            },
            Phase::Connecting => match kind {
                Plain::Connected => {
                    self.phase = Phase::AwaitingWelcome;
                    Reaction { action: Action::Continue, event: None, severity: Severity::Quiet }
                },
                _ => Reaction { action: Action::Continue, event: None, severity: Severity::Warn },
            },
            Phase::AwaitingWelcome => {
                self.phase = Phase::Closed;
                Reaction {
                    action: Action::Fail(EventsubError::IncorrectMessage),
                    event: None,
                    severity: Severity::Error,
                }
            },
            Phase::Active | Phase::Reconnecting => {
                if self.opening {
                    match kind {
                        Plain::Connected => {
                            self.opening = false;
                            self.phase = if self.pending.len() > 0 {
                                Phase::Reconnecting
                            } else {
                                Phase::Active
                            };
                            Reaction {
                                action: Action::Continue,
                                event: None,
                                severity: Severity::Quiet,
                            }
                        },
                        _ => Reaction {
                            action: Action::Continue,
                            event: None,
                            severity: Severity::Warn,
                        },
                    }
                } else {
                    match kind {
                        Plain::Close => {
                            let action = self.end_of_connection();
                            Reaction { action, event: None, severity: Severity::Info }
                        },
                        Plain::Ping => Reaction {
                            action: Action::Continue,
                            event: None,
                            severity: Severity::Quiet,
                        },
                        _ => Reaction {
                            action: Action::Continue,
                            event: None,
                            severity: Severity::Warn,
                        },
                    }
                }
            },
        }
    }

    /// Answers the end of a connection, or the failure to open one; `why` is
    /// the transport's word for it.
    fn handle_loss(&mut self, kind: Loss, why: &String) -> (r: Reaction)
        ensures
            (final(self)@, r.action) == old(self)@.step(kind.signal(*why)),
            r.severity == old(self)@.severity(kind.signal(*why)),
            r.event is None,
            !(r.action is Deliver),
    {
        match self.phase {
            Phase::Closed => Reaction {
                action: Action::Stop,
                event: None,
                severity: Severity::Quiet,
            },
            Phase::Connecting => match kind {
                Loss::ConnectFailed => {
                    self.phase = Phase::Closed;
                    Reaction {
                        action: Action::Fail(EventsubError::WebsocketError(why.clone())),
                        event: None,
                        severity: Severity::Error,
                    }
                },
                _ => Reaction { action: Action::Continue, event: None, severity: Severity::Warn },
            },
            Phase::AwaitingWelcome => {
                self.phase = Phase::Closed;
                Reaction {
                    action: Action::Fail(EventsubError::WebsocketError(why.clone())),
                    event: None,
                    severity: Severity::Error,
                }
            },
            Phase::Active | Phase::Reconnecting => {
                if self.opening {
                    match kind {
                        Loss::ConnectFailed => {
                            self.phase = Phase::Closed;
                            Reaction {
                                action: Action::Stop,
                                event: None,
                                severity: Severity::Error,
                            }
                        },
                        _ => Reaction {
                            action: Action::Continue,
                            event: None,
                            severity: Severity::Warn,
                        },
                    }
                } else {
                    match kind {
                        Loss::Closed => {
                            let action = self.end_of_connection();
                            Reaction { action, event: None, severity: Severity::Info }
                        },
                        Loss::Failed => {
                            let action = self.end_of_connection();
                            Reaction { action, event: None, severity: Severity::Error }
                        },
                        Loss::ConnectFailed => Reaction {
                            action: Action::Continue,
                            event: None,
                            severity: Severity::Warn,
                        },
                    }
                }
            },
        }
    }

    /// Answers a frame.
    pub fn handle_message(&mut self, frame: &Frame) -> (r: Reaction)
        ensures
            (final(self)@, r.action) == old(self)@.step(signal_of(Input::Frame(*frame))),
            r.severity == old(self)@.severity(signal_of(Input::Frame(*frame))),
            r.event is Some <==> r.action is Deliver,
            r.event matches Some(e) ==> event_of(signal_of(Input::Frame(*frame)), e),
    {
        match classify(frame) {
            Classified::TextPayload(text) => self.handle_notification(text),
            Classified::Ping => self.handle_plain(Plain::Ping),
            Classified::Close(_) => self.handle_plain(Plain::Close),
            Classified::Pong | Classified::UnsupportedFrame => self.handle_plain(
                Plain::Unsupported,
            ),
        }
    }

    /// Answers an input: the session's one step.
    pub fn handle(&mut self, input: &Input) -> (r: Reaction)
        ensures
            (final(self)@, r.action) == old(self)@.step(signal_of(*input)),
            r.severity == old(self)@.severity(signal_of(*input)),
            r.event is Some <==> r.action is Deliver,
            r.event matches Some(e) ==> event_of(signal_of(*input), e),
    {
        match input {
            Input::Connected => self.handle_plain(Plain::Connected),
            Input::ConnectFailed(why) => self.handle_loss(Loss::ConnectFailed, why),
            Input::Closed(why) => self.handle_loss(Loss::Closed, why),
            Input::Failed(why) => self.handle_loss(Loss::Failed, why),
            Input::Frame(frame) => self.handle_message(frame),
        }
    }

    /// Answers a run of inputs, one after the other, and returns the events
    /// that are to be handed on, in the order in which they came.
    pub fn run(&mut self, inputs: &Vec<Input>) -> (r: Vec<Event>)
        ensures
            final(self)@ == old(self)@.run(signals_of(inputs@)),
            r@.len() == old(self)@.deliveries(signals_of(inputs@)).len(),
            forall|k: int|
                0 <= k < r@.len() ==> 0 <= old(self)@.deliveries(signals_of(inputs@))[k]
                    < inputs@.len() && event_of(
                    signal_of(inputs@[old(self)@.deliveries(signals_of(inputs@))[k]]),
                    #[trigger] r@[k],
                ),
    {
        let mut out: Vec<Event> = Vec::new();
        let mut i: usize = 0;
        let ghost start = self@;
        let ghost all = signals_of(inputs@);
        let ghost mut places: Seq<int> = Seq::empty();
        proof {
            assert(all.take(0) =~= Seq::<Signal>::empty());
        }
        while i < inputs.len()
            invariant
                i <= inputs.len(),
                all == signals_of(inputs@),
                self@ == start.run(all.take(i as int)),
                places == start.deliveries(all.take(i as int)),
                out@.len() == places.len(),
                forall|k: int| 0 <= k < places.len() ==> 0 <= #[trigger] places[k] < i,
                forall|k: int|
                    0 <= k < out@.len() ==> event_of(
                        signal_of(inputs@[places[k]]),
                        #[trigger] out@[k],
                    ),
            decreases inputs.len() - i,
        {
            let reaction = self.handle(&inputs[i]);
            proof {
                let next = all.take(i + 1);
                assert(next.drop_last() =~= all.take(i as int));
                assert(next.last() == signal_of(inputs@[i as int]));
            }
            match reaction.event {
                Some(event) => {
                    out.push(event);
                    proof {
                        places = places.push(i as int);
                    }
                },
                None => {},
            }
            i += 1;
        }
        proof {
            assert(all.take(inputs@.len() as int) =~= all);
        }
        out
    }
}

/// An input that carries nothing of its own.
#[derive(Clone, Copy, Debug, PartialEq, Eq, Structural)]
pub enum Plain {
    Connected,
    Ping,
    Close,
    Unsupported,
}

/// An input that carries the transport's reason.
#[derive(Clone, Copy, Debug, PartialEq, Eq, Structural)]
pub enum Loss {
    ConnectFailed,
    Closed,
    Failed,
}

impl Plain {
    pub open spec fn signal(self) -> Signal {
        match self {
            Plain::Connected => Signal::Connected,
            Plain::Ping => Signal::Ping,
            Plain::Close => Signal::Close,
            Plain::Unsupported => Signal::Unsupported,
        }
    }
}

impl Loss {
    pub open spec fn signal(self, why: String) -> Signal {
        match self {
            Loss::ConnectFailed => Signal::ConnectFailed(why),
            Loss::Closed => Signal::Closed(why),
            Loss::Failed => Signal::Failed(why),
        }
    }
}

/// What each of a run of inputs means.
pub open spec fn signals_of(inputs: Seq<Input>) -> Seq<Signal> {
    Seq::new(inputs.len(), |i: int| signal_of(inputs[i]))
}

/// The caller's side of a session: the identifier that subscriptions are
/// registered with, and the events that have arrived and not been taken yet,
/// oldest first.
#[derive(Debug)]
pub struct Eventsub {
    pub session_id: String,
    pub receiver: Vec<Event>,
    /// Whether the reading side has stopped: no event will be added.
    pub ended: bool,
}

impl Eventsub {
    /// Establishes a session from what was first read on a connection that
    /// has just been opened. It succeeds exactly on a welcome that names the
    /// session, and then holds that identifier; the reading side comes with
    /// it, active. Every other input fails with the error that says why, and
    /// no reading side is made.
    pub fn new(first: &Input) -> (r: Result<(Eventsub, EventsubConnection), EventsubError>)
        ensures
            r is Ok <==> signal_of(*first) is Welcome,
            r matches Ok(pair) ==> {
                &&& signal_of(*first) == Signal::Welcome(pair.0.session_id)
                &&& pair.0.receiver@.len() == 0
                &&& !pair.0.ended
                &&& pair.1@.phase == Phase::Active
                &&& pair.1@.session_id == pair.0.session_id
                &&& pair.1@.pending.len() == 0
                &&& !pair.1@.opening
            },
            r matches Err(error) ==> handshake_error(signal_of(*first)) == Some(error),
    {
        let mut connection = EventsubConnection::connecting();
        connection.phase = Phase::AwaitingWelcome;
        let reaction = connection.handle(first);
        match reaction.action {
            Action::Fail(error) => Err(error),
            _ => {
                let handle = Eventsub {
                    session_id: connection.session_id.clone(),
                    receiver: Vec::new(),
                    ended: false,
                };
                Ok((handle, connection))
            },
        }
    }

    /// Takes in an event from the reading side.
    pub fn accept(&mut self, event: Event)
        ensures
            final(self).receiver@ == old(self).receiver@.push(event),
            final(self).session_id == old(self).session_id,
            final(self).ended == old(self).ended,
    {
        self.receiver.push(event);
    }

    /// Takes note that the reading side has stopped.
    pub fn finish(&mut self)
        ensures
            final(self).ended,
            final(self).receiver == old(self).receiver,
            final(self).session_id == old(self).session_id,
    {
        self.ended = true;
    }

    /// Whether the sequence of events has come to its end: the reading side
    /// has stopped and every event has been taken.
    pub fn finished(&self) -> (r: bool)
        ensures
            r == (self.ended && self.receiver@.len() == 0),
    {
        self.ended && self.receiver.len() == 0
    }

    /// The oldest event that has not been taken yet.
    pub fn next(&mut self) -> (r: Option<Event>)
        ensures
            final(self).session_id == old(self).session_id,
            final(self).ended == old(self).ended,
            match r {
                Some(event) => old(self).receiver@.len() > 0 && event == old(self).receiver@[0]
                    && final(self).receiver@ == old(self).receiver@.drop_first(),
                None => old(self).receiver@.len() == 0 && final(self).receiver@.len() == 0,
            },
    {
        if self.receiver.len() == 0 {
            None
        } else {
            let event = self.receiver.remove(0);
            assert(self.receiver@ =~= old(self).receiver@.drop_first());
            Some(event)
        }
    }

    /// All events that have not been taken yet, oldest first.
    pub fn iter(&mut self) -> (r: Vec<Event>)
        ensures
            r@ == old(self).receiver@,
            final(self).receiver@.len() == 0,
            final(self).session_id == old(self).session_id,
            final(self).ended == old(self).ended,
    {
        let mut out: Vec<Event> = Vec::new();
        out.append(&mut self.receiver);
        assert(out@ =~= old(self).receiver@);
        out
    }
}

/// The error with which a session fails to be established on a first input
/// that is no welcome naming the session; `None` for one that is.
pub open spec fn handshake_error(signal: Signal) -> Option<EventsubError> {
    match signal {
        Signal::Welcome(_) => None,
        Signal::WelcomeWithoutId => Some(EventsubError::NoSessionID),
        Signal::Undecodable(text) => Some(EventsubError::ParseError(DecodeError { text })),
        Signal::Closed(why) | Signal::Failed(why) | Signal::ConnectFailed(why) => Some(
            EventsubError::WebsocketError(why),
        ),
        _ => Some(EventsubError::IncorrectMessage),
    }
}

/// A session that awaits its welcome is established by a welcome that names
/// the session and by nothing else: every other first input closes it with an
/// error, and none starts the delivery of events.
pub proof fn lemma_handshake_validity(m: Model, first: Signal)
    requires
        m.phase == Phase::AwaitingWelcome,
    ensures
        first is Welcome <==> m.step(first).1 is Started,
        !(first is Welcome) ==> m.step(first).0.phase == Phase::Closed && m.step(first).1
            == Action::Fail(handshake_error(first).unwrap()),
        first matches Signal::Welcome(id) ==> m.step(first).0.phase == Phase::Active && m.step(
            first,
        ).0.session_id == id,
{
}

/// A closed session stays closed and hands on nothing, whatever comes.
pub proof fn lemma_closed_is_final(m: Model, signals: Seq<Signal>)
    requires
        m.phase == Phase::Closed,
    ensures
        m.run(signals) == m,
        m.deliveries(signals).len() == 0,
    decreases signals.len(),
{
    if signals.len() > 0 {
        lemma_closed_is_final(m, signals.drop_last());
    }
}

/// A run in two parts: the state after the whole is the state after the
/// second part, begun where the first part ended; and the places of delivery
/// are those of the first part, then those of the second, shifted.
pub proof fn lemma_run_in_parts(m: Model, first: Seq<Signal>, second: Seq<Signal>)
    ensures
        m.run(first + second) == m.run(first).run(second),
        m.deliveries(first + second) == m.deliveries(first) + m.run(first).deliveries(
            second,
        ).map_values(|p: int| p + first.len()),
    decreases second.len(),
{
    let shift = |p: int| p + first.len();
    if second.len() == 0 {
        assert(first + second =~= first);
        assert(m.deliveries(first) + Seq::<int>::empty().map_values(shift) =~= m.deliveries(
            first,
        ));
    } else {
        let whole = first + second;
        assert(whole.drop_last() =~= first + second.drop_last());
        assert(whole.last() == second.last());
        lemma_run_in_parts(m, first, second.drop_last());
        let inner = m.run(first).deliveries(second.drop_last());
        if m.run(first).run(second.drop_last()).step(second.last()).1 is Deliver {
            assert(inner.push(second.len() - 1).map_values(shift) =~= inner.map_values(
                shift,
            ).push(whole.len() - 1));
            assert(m.deliveries(first) + inner.map_values(shift).push(whole.len() - 1)
                =~= (m.deliveries(first) + inner.map_values(shift)).push(whole.len() - 1));
        }
    }
}

/// Order is kept: a session that listens hands on the event of every one of
/// a run of notifications, each once and in the order of their arrival, and
/// is left as it was.
pub proof fn lemma_order_preserved(m: Model, signals: Seq<Signal>)
    requires
        m.listening(),
        forall|i: int| 0 <= i < signals.len() ==> #[trigger] signals[i] is Notification,
    ensures
        m.run(signals) == m,
        m.deliveries(signals) == Seq::new(signals.len(), |i: int| i),
    decreases signals.len(),
{
    if signals.len() == 0 {
        assert(m.deliveries(signals) =~= Seq::new(signals.len(), |i: int| i));
    } else {
        let before = signals.drop_last();
        assert forall|i: int| 0 <= i < before.len() implies #[trigger] before[i] is Notification by {
            assert(before[i] == signals[i]);
        }
        lemma_order_preserved(m, before);
        assert(signals.last() == signals[signals.len() - 1]);
        assert(m.deliveries(signals) =~= Seq::new(signals.len(), |i: int| i));
    }
}

/// A text that cannot be read is dropped and the session goes on: among
/// notifications and such texts, in any order, exactly the notifications are
/// handed on, in the order of their arrival, and the session is left as it
/// was.
pub proof fn lemma_decode_failures_skipped(m: Model, signals: Seq<Signal>)
    requires
        m.listening(),
        forall|i: int|
            0 <= i < signals.len() ==> (#[trigger] signals[i]) is Notification
                || signals[i] is Undecodable,
    ensures
        m.run(signals) == m,
        forall|i: int|
            0 <= i < signals.len() ==> (m.deliveries(signals).contains(i)
                <==> (#[trigger] signals[i]) is Notification),
        forall|k: int, l: int|
            0 <= k < l < m.deliveries(signals).len() ==> 0 <= #[trigger] m.deliveries(signals)[k]
                < #[trigger] m.deliveries(signals)[l] < signals.len(),
    decreases signals.len(),
{
    if signals.len() > 0 {
        let before = signals.drop_last();
        let last = signals.len() - 1;
        assert forall|i: int| 0 <= i < before.len() implies (#[trigger] before[i])
            is Notification || before[i] is Undecodable by {
            assert(before[i] == signals[i]);
        }
        lemma_decode_failures_skipped(m, before);
        let found = m.deliveries(before);
        let all = m.deliveries(signals);
        assert(signals.last() == signals[last]);
        lemma_places_in_range(m, before);
        assert forall|i: int| 0 <= i < signals.len() implies (all.contains(i) <==> (
        #[trigger] signals[i]) is Notification) by {
            if i < last {
                assert(before[i] == signals[i]);
                if found.contains(i) {
                    let k = choose|k: int| 0 <= k < found.len() && found[k] == i;
                    assert(all[k] == i);
                }
                if all.contains(i) {
                    let k = choose|k: int| 0 <= k < all.len() && all[k] == i;
                    assert(found[k] == i);
                }
            } else {
                if signals[last] is Notification {
                    assert(all[all.len() - 1] == last);
                }
                if all.contains(i) {
                    let k = choose|k: int| 0 <= k < all.len() && all[k] == i;
                    if k < found.len() {
                        assert(found[k] == i);
                    }
                }
            }
        }
    }
}

/// Every place of delivery lies within the run.
pub proof fn lemma_places_in_range(m: Model, signals: Seq<Signal>)
    ensures
        forall|k: int|
            0 <= k < m.deliveries(signals).len() ==> 0 <= #[trigger] m.deliveries(signals)[k]
                < signals.len(),
    decreases signals.len(),
{
    if signals.len() > 0 {
        lemma_places_in_range(m, signals.drop_last());
        let found = m.deliveries(signals.drop_last());
        assert forall|k: int| 0 <= k < m.deliveries(signals).len() implies 0
            <= #[trigger] m.deliveries(signals)[k] < signals.len() by {
            if k < found.len() {
                assert(m.deliveries(signals)[k] == found[k]);
            }
        }
    }
}

/// Reconnecting is not seen by the consumer: an active session that is told
/// to move goes on handing on the notifications of the connection it has,
/// opens the new address when that connection closes, and hands on the
/// notifications of the new connection after those of the old one. It ends
/// active, under the identifier it had.
pub proof fn lemma_reconnect_transparent(
    m: Model,
    address: String,
    earlier: Seq<Signal>,
    later: Seq<Signal>,
)
    requires
        m.phase == Phase::Active,
        !m.opening,
        m.pending.len() == 0,
        forall|i: int| 0 <= i < earlier.len() ==> #[trigger] earlier[i] is Notification,
        forall|i: int| 0 <= i < later.len() ==> #[trigger] later[i] is Notification,
    ensures
        ({
            let draining = m.run(seq![Signal::Reconnect(address)] + earlier);
            let whole = seq![Signal::Reconnect(address)] + earlier + seq![
                Signal::Close,
                Signal::Connected,
            ] + later;
            &&& draining.step(Signal::Close).1 == Action::Connect(address)
            &&& m.run(whole) == m
            &&& m.deliveries(whole) == Seq::new(earlier.len(), |i: int| i + 1) + Seq::new(
                later.len(),
                |i: int| i + earlier.len() + 3,
            )
        }),
{
    let head = seq![Signal::Reconnect(address)];
    let middle = seq![Signal::Close, Signal::Connected];
    let moved = Model { phase: Phase::Reconnecting, pending: m.pending.push(address), ..m };
    let opening = Model {
        phase: Phase::Reconnecting,
        pending: moved.pending.drop_last(),
        opening: true,
        ..m
    };
    assert(head.drop_last() =~= Seq::<Signal>::empty());
    assert(m.run(head.drop_last()) == m);
    assert(m.run(head) == moved);
    assert(m.deliveries(head.drop_last()) =~= Seq::<int>::empty());
    assert(m.deliveries(head) =~= Seq::<int>::empty());
    lemma_order_preserved(moved, earlier);
    lemma_run_in_parts(m, head, earlier);
    assert(moved.pending.last() == address);
    assert(moved.pending.drop_last() =~= m.pending);
    assert(moved.step(Signal::Close) == (opening, Action::Connect(address)));
    assert(middle.drop_last() =~= seq![Signal::Close]);
    assert(seq![Signal::Close].drop_last() =~= Seq::<Signal>::empty());
    assert(moved.run(seq![Signal::Close].drop_last()) == moved);
    assert(moved.run(seq![Signal::Close]) == opening);
    assert(opening.step(Signal::Connected).0 == m);
    assert(moved.run(middle) == m);
    assert(moved.deliveries(seq![Signal::Close].drop_last()) =~= Seq::<int>::empty());
    assert(moved.deliveries(seq![Signal::Close]) =~= Seq::<int>::empty());
    assert(moved.deliveries(middle) =~= Seq::<int>::empty());
    lemma_run_in_parts(m, head + earlier, middle);
    lemma_order_preserved(m, later);
    lemma_run_in_parts(m, head + earlier + middle, later);
    let whole = head + earlier + middle + later;
    assert(m.deliveries(whole) =~= Seq::new(earlier.len(), |i: int| i + 1) + Seq::new(
        later.len(),
        |i: int| i + earlier.len() + 3,
    ));
}

/// A revocation ends the delivery: the session answers it by having a close
/// frame sent, is closed at once, and hands on nothing that comes after,
/// whether or not the other side closes.
pub proof fn lemma_revocation_ends_delivery(m: Model, after: Seq<Signal>)
    requires
        m.listening(),
    ensures
        m.step(Signal::Revocation).1 == Action::SendClose,
        m.step(Signal::Revocation).0.phase == Phase::Closed,
        m.step(Signal::Revocation).0.run(after).phase == Phase::Closed,
        m.step(Signal::Revocation).0.deliveries(after).len() == 0,
{
    lemma_closed_is_final(m.step(Signal::Revocation).0, after);
}

/// A close frame ends the sequence in good order: a session that listens and
/// has nowhere to move to stops, closed, without an error being logged, and
/// hands on nothing that comes after.
pub proof fn lemma_close_ends_cleanly(m: Model, after: Seq<Signal>)
    requires
        m.listening(),
        m.pending.len() == 0,
    ensures
        m.step(Signal::Close).1 == Action::Stop,
        m.step(Signal::Close).0.phase == Phase::Closed,
        m.severity(Signal::Close) == Severity::Info,
        m.step(Signal::Close).0.deliveries(after).len() == 0,
{
    lemma_closed_is_final(m.step(Signal::Close).0, after);
}

} // verus!
