use vstd::prelude::*;
use crate::events::{ConnectionStatusEvent, ConnectionStatusView, Event, EventView, Status, lost_message, closed_message};
use crate::failure::PushError;
use crate::params::{SessionParams, SessionParamsView};
use crate::queue::{ChunkQueue, QUEUE_CAPACITY};
use crate::transcript::{event_of_text, text_event};

verus! {

/// The queue between the caller and the uplink, as the contracts see it.
pub enum ChannelView {
    /// No queue is installed and none drains: no session was started, or the last one has
    /// ended and nothing of it waits.
    Absent,
    /// A queue is installed and drained; it holds these chunks, the oldest first.
    Open(Seq<Seq<u8>>),
    /// The session was stopped: no queue is installed, and the chunks that were taken
    /// before still wait for the uplink, the oldest first.
    Draining(Seq<Seq<u8>>),
    /// A queue is installed, and the uplink that drained it has failed.
    Closed,
}

/// The state of the relay, as the contracts see it.
pub struct SessionView {
    /// The number of the session that was started last.
    pub session: u64,
    pub channel: ChannelView,
    /// The parameters that the last session was started with.
    pub params: Option<SessionParamsView>,
}

/// What `push` did with a chunk, as the contracts see it.
pub enum PushedView {
    Queued,
    Dropped,
    Full(Seq<u8>),
}

/// What the uplink does next, as the contracts see it.
pub enum UplinkStepView {
    Send(Seq<u8>),
    Wait,
    Exit,
}

/// What the transport handed to the downlink, as the contracts see it.
pub enum InboundView {
    Text(Seq<char>),
    Close,
    Failure(Seq<char>),
    Other,
}

/// What the downlink does with what it was handed, as the contracts see it.
pub struct DownlinkStepView {
    pub event: Option<EventView>,
    pub done: bool,
}

/// The number of the session after session `session`.
pub open spec fn next_session(session: u64) -> u64 {
    if session == u64::MAX {
        0
    } else {
        (session + 1) as u64
    }
}

impl SessionView {
    /// The state before any session.
    pub open spec fn initial() -> SessionView {
        SessionView { session: 0, channel: ChannelView::Absent, params: None }
    }

    /// A session is active while its queue is installed and drained.
    pub open spec fn active(self) -> bool {
        self.channel is Open
    }

    /// The chunks that wait for the uplink, the oldest first.
    pub open spec fn pending(self) -> Seq<Seq<u8>> {
        match self.channel {
            ChannelView::Open(chunks) => chunks,
            ChannelView::Draining(chunks) => chunks,
            _ => Seq::empty(),
        }
    }

    /// The queue holds no more than its capacity.
    pub open spec fn bounded(self) -> bool {
        self.pending().len() <= QUEUE_CAPACITY
    }

    /// The state after `start`: a new session with a new, empty queue.
    pub open spec fn start(self, params: SessionParamsView) -> SessionView {
        SessionView {
            session: next_session(self.session),
            channel: ChannelView::Open(Seq::empty()),
            params: Some(params),
        }
    }

    /// The state after `stop`: no queue is installed any more, and what waited still waits
    /// for the uplink.
    pub open spec fn stop(self) -> SessionView {
        match self.channel {
            ChannelView::Open(chunks) => SessionView {
                channel: ChannelView::Draining(chunks),
                ..self
            },
            ChannelView::Draining(_) => self,
            _ => SessionView { channel: ChannelView::Absent, ..self },
        }
    }

    /// What `push` answers for `chunk`.
    pub open spec fn push_result(self, chunk: Seq<u8>) -> Result<PushedView, PushError> {
        match self.channel {
            ChannelView::Absent => Ok(PushedView::Dropped),
            ChannelView::Draining(_) => Ok(PushedView::Dropped),
            ChannelView::Closed => Err(PushError::ChannelClosed),
            ChannelView::Open(chunks) => if chunks.len() < QUEUE_CAPACITY {
                Ok(PushedView::Queued)
            } else {
                Ok(PushedView::Full(chunk))
            },
        }
    }

    /// The state after `push`: the chunk is the youngest of an open queue that had room, and
    /// nothing has changed otherwise.
    pub open spec fn push(self, chunk: Seq<u8>) -> SessionView {
        match self.channel {
            ChannelView::Open(chunks) => if chunks.len() < QUEUE_CAPACITY {
                SessionView { channel: ChannelView::Open(chunks.push(chunk)), ..self }
            } else {
                self
            },
            _ => self,
        }
    }

    /// What the uplink of session `session` is told to do next.
    pub open spec fn uplink_step(self, session: u64) -> UplinkStepView {
        if session != self.session {
            UplinkStepView::Exit
        } else {
            match self.channel {
                ChannelView::Open(chunks) => if chunks.len() > 0 {
                    UplinkStepView::Send(chunks[0])
                } else {
                    UplinkStepView::Wait
                },
                ChannelView::Draining(chunks) => if chunks.len() > 0 {
                    UplinkStepView::Send(chunks[0])
                } else {
                    UplinkStepView::Exit
                },
                _ => UplinkStepView::Exit,
            }
        }
    }

    /// The state after the uplink of session `session` asked what to do next: the oldest
    /// chunk has left the queue where the answer was to send it.
    pub open spec fn after_uplink_step(self, session: u64) -> SessionView {
        if session != self.session {
            self
        } else {
            match self.channel {
                ChannelView::Open(chunks) => if chunks.len() > 0 {
                    SessionView { channel: ChannelView::Open(chunks.drop_first()), ..self }
                } else {
                    self
                },
                ChannelView::Draining(chunks) => if chunks.len() > 0 {
                    SessionView { channel: ChannelView::Draining(chunks.drop_first()), ..self }
                } else {
                    self
                },
                _ => self,
            }
        }
    }

    /// The state after the uplink of session `session` failed to send. An open queue of
    /// that session stays installed and is closed; of a stopped session nothing waits any
    /// more.
    pub open spec fn send_failed(self, session: u64) -> SessionView {
        if session != self.session {
            self
        } else {
            match self.channel {
                ChannelView::Open(_) => SessionView { channel: ChannelView::Closed, ..self },
                ChannelView::Draining(_) => SessionView { channel: ChannelView::Absent, ..self },
                _ => self,
            }
        }
    }

    /// What the downlink of session `session` does with `inbound`.
    pub open spec fn downlink_step(self, session: u64, inbound: InboundView) -> DownlinkStepView {
        if session != self.session {
            DownlinkStepView { event: None, done: true }
        } else {
            match inbound {
                InboundView::Text(text) => DownlinkStepView {
                    event: if self.active() {
                        match event_of_text(text) {
                            Some(e) => Some(EventView::Transcript(e)),
                            None => None,
                        }
                    } else {
                        None
                    },
                    done: false,
                },
                InboundView::Close => DownlinkStepView {
                    event: Some(
                        EventView::ConnectionStatus(
                            ConnectionStatusView {
                                status: Status::Disconnected,
                                message: closed_message(),
                            },
                        ),
                    ),
                    done: true,
                },
                InboundView::Failure(description) => DownlinkStepView {
                    event: Some(
                        EventView::ConnectionStatus(
                            ConnectionStatusView { status: Status::Error, message: description },
                        ),
                    ),
                    done: true,
                },
                InboundView::Other => DownlinkStepView { event: None, done: false },
            }
        }
    }

    /// The state after the downlink of session `session` was handed `inbound`: the queue is
    /// gone, with what waited, where the stream of that session has closed or failed.
    pub open spec fn after_inbound(self, session: u64, inbound: InboundView) -> SessionView {
        if session == self.session && (inbound is Close || inbound is Failure) {
            SessionView { channel: ChannelView::Absent, ..self }
        } else {
            self
        }
    }
}

/// What `push` did with a chunk.
#[derive(Debug, PartialEq, Eq)]
pub enum Pushed {
    /// The chunk waits in the queue.
    Queued,
    /// No queue is installed; the chunk is gone.
    Dropped,
    /// The queue is full; here is the chunk again.
    Full(Vec<u8>),
}

impl View for Pushed {
    type V = PushedView;

    open spec fn view(&self) -> PushedView {
        match self {
            Pushed::Queued => PushedView::Queued,
            Pushed::Dropped => PushedView::Dropped,
            Pushed::Full(chunk) => PushedView::Full(chunk@),
        }
    }
}

/// What the uplink does next.
#[derive(Debug, PartialEq, Eq)]
pub enum UplinkStep {
    /// Send this chunk as one binary frame, then ask again.
    Send(Vec<u8>),
    /// Nothing to send yet: ask again once a chunk was pushed or the session has changed.
    Wait,
    /// The session is over for this pipeline.
    Exit,
}

impl View for UplinkStep {
    type V = UplinkStepView;

    open spec fn view(&self) -> UplinkStepView {
        match self {
            UplinkStep::Send(chunk) => UplinkStepView::Send(chunk@),
            UplinkStep::Wait => UplinkStepView::Wait,
            UplinkStep::Exit => UplinkStepView::Exit,
        }
    }
}

/// What the transport handed to the downlink.
#[derive(Debug, PartialEq, Eq)]
pub enum Inbound {
    /// A text frame.
    Text(String),
    /// The provider closed the stream.
    Close,
    /// The transport failed; the text describes how.
    Failure(String),
    /// A frame of any other kind.
    Other,
}

impl View for Inbound {
    type V = InboundView;

    open spec fn view(&self) -> InboundView {
        match self {
            Inbound::Text(text) => InboundView::Text(text@),
            Inbound::Close => InboundView::Close,
            Inbound::Failure(description) => InboundView::Failure(description@),
            Inbound::Other => InboundView::Other,
        }
    }
}

/// What the downlink does with what it was handed: the event to publish, if any, and
/// whether the pipeline ends here.
#[derive(Debug, PartialEq, Eq)]
pub struct DownlinkStep {
    pub event: Option<Event>,
    pub done: bool,
}

impl View for DownlinkStep {
    type V = DownlinkStepView;

    open spec fn view(&self) -> DownlinkStepView {
        DownlinkStepView {
            event: match self.event {
                Some(e) => Some(e@),
                None => None,
            },
            done: self.done,
        }
    }
}

enum Channel {
    Absent,
    Open(ChunkQueue),
    Draining(ChunkQueue),
    Closed,
}

/// The state that the caller and the two pipelines of a session share: which session is
/// the current one, and the queue between the caller and its uplink.
pub struct SessionState {
    session: u64,
    channel: Channel,
    params: Option<SessionParams>,
}

impl View for SessionState {
    type V = SessionView;

    closed spec fn view(&self) -> SessionView {
        SessionView {
            session: self.session,
            channel: match self.channel {
                Channel::Absent => ChannelView::Absent,
                Channel::Open(queue) => ChannelView::Open(queue@),
                Channel::Draining(queue) => ChannelView::Draining(queue@),
                Channel::Closed => ChannelView::Closed,
            },
            params: match self.params {
                Some(p) => Some(p@),
                None => None,
            },
        }
    }
}

impl SessionState {
    /// The state before any session.
    pub fn new() -> (state: SessionState)
        ensures
            state@ == SessionView::initial(),
    {
        SessionState { session: 0, channel: Channel::Absent, params: None }
    }

    /// Whether a session is active.
    pub fn is_active(&self) -> (active: bool)
        ensures
            active == self@.active(),
    {
        match &self.channel {
            Channel::Open(_) => true,
            _ => false,
        }
    }

    /// The number of the session that was started last.
    pub fn session(&self) -> (session: u64)
        ensures
            session == self@.session,
    {
        self.session
    }

    /// How many chunks wait for the uplink.
    pub fn pending(&self) -> (count: usize)
        ensures
            count == self@.pending().len(),
    {
        match &self.channel {
            Channel::Open(queue) => queue.len(),
            Channel::Draining(queue) => queue.len(),
            _ => 0,
        }
    }

    /// The parameters that the last session was started with.
    pub fn params(&self) -> (params: Option<&SessionParams>)
        ensures
            match params {
                Some(p) => self@.params == Some(p@),
                None => self@.params is None,
            },
    {
        self.params.as_ref()
    }

    /// Starts a session and returns its number. A session that was there before is
    /// superseded: its queue is dropped with what still waited in it.
    pub fn start(&mut self, params: SessionParams) -> (session: u64)
        ensures
            final(self)@ == old(self)@.start(params@),
            session == final(self)@.session,
    {
        let session = if self.session == u64::MAX {
            0
        } else {
            self.session + 1
        };
        self.session = session;
        self.channel = Channel::Open(ChunkQueue::new());
        self.params = Some(params);
        session
    }

    /// Stops the session. No chunk is taken from now on; the chunks that were taken before
    /// are still handed to the uplink, which ends once it has sent the last of them.
    pub fn stop(&mut self)
        ensures
            final(self)@ == old(self)@.stop(),
    {
        let mut channel = Channel::Absent;
        std::mem::swap(&mut self.channel, &mut channel);
        self.channel = match channel {
            Channel::Open(queue) => Channel::Draining(queue),
            Channel::Draining(queue) => Channel::Draining(queue),
            _ => Channel::Absent,
        };
    }

    /// Hands a chunk of audio to the session.
    pub fn push(&mut self, chunk: Vec<u8>) -> (pushed: Result<Pushed, PushError>)
        ensures
            final(self)@ == old(self)@.push(chunk@),
            match pushed {
                Ok(p) => old(self)@.push_result(chunk@) == Ok::<PushedView, PushError>(p@),
                Err(e) => old(self)@.push_result(chunk@) == Err::<PushedView, PushError>(e),
            },
    {
        match &mut self.channel {
            Channel::Absent => Ok(Pushed::Dropped),
            Channel::Draining(_) => Ok(Pushed::Dropped),
            Channel::Closed => Err(PushError::ChannelClosed),
            Channel::Open(queue) => match queue.offer(chunk) {
                None => Ok(Pushed::Queued),
                Some(chunk) => Ok(Pushed::Full(chunk)),
            },
        }
    }

    /// Tells the uplink of session `session` what to do next, and takes the chunk to send
    /// out of the queue.
    pub fn next_chunk(&mut self, session: u64) -> (step: UplinkStep)
        ensures
            step@ == old(self)@.uplink_step(session),
            final(self)@ == old(self)@.after_uplink_step(session),
    {
        if session != self.session {
            return UplinkStep::Exit;
        }
        match &mut self.channel {
            Channel::Open(queue) => match queue.take() {
                Some(chunk) => UplinkStep::Send(chunk),
                None => UplinkStep::Wait,
            },
            Channel::Draining(queue) => match queue.take() {
                Some(chunk) => UplinkStep::Send(chunk),
                None => UplinkStep::Exit,
            },
            _ => UplinkStep::Exit,
        }
    }

    /// Records that the uplink of session `session` failed to send, and returns the event
    /// that reports it. The uplink of a superseded session reports nothing.
    pub fn send_failed(&mut self, session: u64) -> (event: Option<ConnectionStatusEvent>)
        ensures
            final(self)@ == old(self)@.send_failed(session),
            session != old(self)@.session ==> event is None,
            session == old(self)@.session ==> event is Some && event->0@ == (ConnectionStatusView {
                status: Status::Error,
                message: lost_message(),
            }),
    {
        if session != self.session {
            return None;
        }
        let mut channel = Channel::Absent;
        std::mem::swap(&mut self.channel, &mut channel);
        self.channel = match channel {
            Channel::Open(_) => Channel::Closed,
            Channel::Draining(_) => Channel::Absent,
            other => other,
        };
        Some(ConnectionStatusEvent::lost())
    }

    /// Decides what the downlink of session `session` does with `inbound`.
    pub fn receive(&mut self, session: u64, inbound: Inbound) -> (step: DownlinkStep)
        ensures
            step@ == old(self)@.downlink_step(session, inbound@),
            final(self)@ == old(self)@.after_inbound(session, inbound@),
    {
        if session != self.session {
            return DownlinkStep { event: None, done: true };
        }
        match inbound {
            Inbound::Text(text) => {
                let event = if self.is_active() {
                    match text_event(text.as_str()) {
                        Some(e) => Some(Event::Transcript(e)),
                        None => None,
                    }
                } else {
                    None
                };
                DownlinkStep { event, done: false }
            },
            Inbound::Close => {
                self.channel = Channel::Absent;
                DownlinkStep {
                    event: Some(Event::ConnectionStatus(ConnectionStatusEvent::disconnected())),
                    done: true,
                }
            },
            Inbound::Failure(description) => {
                self.channel = Channel::Absent;
                DownlinkStep {
                    event: Some(Event::ConnectionStatus(ConnectionStatusEvent::error(description))),
                    done: true,
                }
            },
            Inbound::Other => DownlinkStep { event: None, done: false },
        }
    }
}

} // verus!
