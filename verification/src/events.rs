use vstd::prelude::*;

verus! {

/// What a [`TranscriptEvent`] carries.
pub struct TranscriptEventView {
    pub text: Seq<char>,
    pub is_final: bool,
}

/// A piece of recognised speech. Its text is never empty.
#[derive(Debug, PartialEq, Eq)]
pub struct TranscriptEvent {
    text: String,
    is_final: bool,
}

impl View for TranscriptEvent {
    type V = TranscriptEventView;

    closed spec fn view(&self) -> TranscriptEventView {
        TranscriptEventView { text: self.text@, is_final: self.is_final }
    }
}

impl Clone for TranscriptEvent {
    fn clone(&self) -> (copy: TranscriptEvent)
        ensures
            copy@ == self@,
    {
        proof {
            use_type_invariant(self);
        }
        TranscriptEvent { text: self.text.clone(), is_final: self.is_final }
    }
}

impl TranscriptEvent {
    #[verifier::type_invariant]
    spec fn has_text(self) -> bool {
        self.text@.len() > 0
    }

    /// Makes the event for `text`, or nothing where `text` is empty.
    pub fn new(text: String, is_final: bool) -> (made: Option<TranscriptEvent>)
        ensures
            text@.len() == 0 ==> made is None,
            text@.len() > 0 ==> made is Some && made->0@ == (TranscriptEventView {
                text: text@,
                is_final,
            }),
    {
        if text.as_str().is_empty() {
            None
        } else {
            Some(TranscriptEvent { text, is_final })
        }
    }

    pub fn text(&self) -> (text: &str)
        ensures
            text@ == self@.text,
            text@.len() > 0,
    {
        proof {
            use_type_invariant(self);
        }
        self.text.as_str()
    }

    pub fn is_final(&self) -> (is_final: bool)
        ensures
            is_final == self@.is_final,
    {
        self.is_final
    }
}

/// Where the connection to the provider stands.
#[derive(Clone, Copy, Debug, PartialEq, Eq, Structural)]
pub enum Status {
    Connected,
    Disconnected,
    Error,
}

impl Status {
    /// The word that stands for this status in an event's payload.
    pub open spec fn word(self) -> Seq<char> {
        match self {
            Status::Connected => "connected"@,
            Status::Disconnected => "disconnected"@,
            Status::Error => "error"@,
        }
    }

    /// The word that stands for this status in an event's payload.
    pub fn as_str(&self) -> (word: &'static str)
        ensures
            word@ == self.word(),
    {
        match self {
            Status::Connected => "connected",
            Status::Disconnected => "disconnected",
            Status::Error => "error",
        }
    }
}

/// What a [`ConnectionStatusEvent`] carries.
pub struct ConnectionStatusView {
    pub status: Status,
    pub message: Seq<char>,
}

/// A change in the state of the connection, with a message for the user.
#[derive(Debug, PartialEq, Eq)]
pub struct ConnectionStatusEvent {
    pub status: Status,
    pub message: String,
}

impl View for ConnectionStatusEvent {
    type V = ConnectionStatusView;

    open spec fn view(&self) -> ConnectionStatusView {
        ConnectionStatusView { status: self.status, message: self.message@ }
    }
}

impl Clone for ConnectionStatusEvent {
    fn clone(&self) -> (copy: ConnectionStatusEvent)
        ensures
            copy@ == self@,
    {
        ConnectionStatusEvent { status: self.status, message: self.message.clone() }
    }
}

/// The message of the event that reports an established connection.
pub open spec fn connected_message() -> Seq<char> {
    "connected"@
}

/// The message of the event that reports that the provider closed the stream.
pub open spec fn closed_message() -> Seq<char> {
    "connection closed"@
}

/// The message of the event that reports a failed send.
pub open spec fn lost_message() -> Seq<char> {
    "connection lost"@
}

impl ConnectionStatusEvent {
    pub fn new(status: Status, message: String) -> (event: ConnectionStatusEvent)
        ensures
            event@ == (ConnectionStatusView { status, message: message@ }),
    {
        ConnectionStatusEvent { status, message }
    }

    /// The event that reports an established connection.
    pub fn connected() -> (event: ConnectionStatusEvent)
        ensures
            event@ == (ConnectionStatusView {
                status: Status::Connected,
                message: connected_message(),
            }),
    {
        ConnectionStatusEvent { status: Status::Connected, message: "connected".to_owned() }
    }

    /// The event that reports that the provider closed the stream.
    pub fn disconnected() -> (event: ConnectionStatusEvent)
        ensures
            event@ == (ConnectionStatusView {
                status: Status::Disconnected,
                message: closed_message(),
            }),
    {
        ConnectionStatusEvent {
            status: Status::Disconnected,
            message: "connection closed".to_owned(),
        }
    }

    /// The event that reports a failure, with `message` as its text.
    pub fn error(message: String) -> (event: ConnectionStatusEvent)
        ensures
            event@ == (ConnectionStatusView { status: Status::Error, message: message@ }),
    {
        ConnectionStatusEvent { status: Status::Error, message }
    }

    /// The event that reports a failed send.
    pub fn lost() -> (event: ConnectionStatusEvent)
        ensures
            event@ == (ConnectionStatusView { status: Status::Error, message: lost_message() }),
    {
        ConnectionStatusEvent { status: Status::Error, message: "connection lost".to_owned() }
    }
}

/// What an [`Event`] carries.
pub enum EventView {
    Transcript(TranscriptEventView),
    ConnectionStatus(ConnectionStatusView),
}

/// Something to tell the presentation layer.
#[derive(Debug, PartialEq, Eq)]
pub enum Event {
    Transcript(TranscriptEvent),
    ConnectionStatus(ConnectionStatusEvent),
}

impl View for Event {
    type V = EventView;

    open spec fn view(&self) -> EventView {
        match self {
            Event::Transcript(e) => EventView::Transcript(e@),
            Event::ConnectionStatus(e) => EventView::ConnectionStatus(e@),
        }
    }
}

impl Clone for Event {
    fn clone(&self) -> (copy: Event)
        ensures
            copy@ == self@,
    {
        match self {
            Event::Transcript(e) => Event::Transcript(e.clone()),
            Event::ConnectionStatus(e) => Event::ConnectionStatus(e.clone()),
        }
    }
}

impl EventView {
    /// The name under which an event of this kind is published.
    pub open spec fn name(self) -> Seq<char> {
        match self {
            EventView::Transcript(_) => "transcript"@,
            EventView::ConnectionStatus(_) => "connection-status"@,
        }
    }
}

impl Event {
    /// The name under which this event is published.
    pub fn name(&self) -> (name: &'static str)
        ensures
            name@ == self@.name(),
    {
        match self {
            Event::Transcript(_) => "transcript",
            Event::ConnectionStatus(_) => "connection-status",
        }
    }
}

} // verus!
