use vstd::prelude::*;
use crate::events::{connected_message, ConnectionStatusEvent, ConnectionStatusView, Status};
use crate::failure::{category_of, classify, failure_message, failure_message_of, StartError, StartErrorView};
use crate::params::{listen_url, listen_url_of, SessionParams, SessionParamsView};
use crate::session::SessionState;

verus! {

/// The name of the configuration value that holds the credential.
pub const CREDENTIAL_VARIABLE: &'static str = "DEEPGRAM_API_KEY";

/// What a [`ConnectRequest`] holds.
pub struct ConnectRequestView {
    pub url: Seq<char>,
    pub authorization: Seq<char>,
}

/// What the handshake with the provider is made with: the address to connect to and the
/// value of the `Authorization` header.
#[derive(Debug, PartialEq, Eq)]
pub struct ConnectRequest {
    pub url: String,
    pub authorization: String,
}

impl View for ConnectRequest {
    type V = ConnectRequestView;

    open spec fn view(&self) -> ConnectRequestView {
        ConnectRequestView { url: self.url@, authorization: self.authorization@ }
    }
}

/// The value of the `Authorization` header for a credential.
pub open spec fn authorization_of(credential: Seq<char>) -> Seq<char> {
    "Token "@ + credential
}

/// The request that a session with these parameters opens its connection with, where a
/// credential is configured.
pub open spec fn request_of(
    credential: Option<Seq<char>>,
    params: SessionParamsView,
) -> Result<ConnectRequestView, StartErrorView> {
    match credential {
        Some(c) => Ok(
            ConnectRequestView { url: listen_url_of(params), authorization: authorization_of(c) },
        ),
        None => Err(StartErrorView::Config),
    }
}

impl ConnectRequest {
    /// Prepares the handshake. Without a credential there is nothing to connect with, and
    /// the answer is [`StartError::Config`].
    pub fn prepare(credential: Option<&str>, params: &SessionParams) -> (request: Result<
        ConnectRequest,
        StartError,
    >)
        ensures
            match request {
                Ok(r) => request_of(credential_view(credential), params@) == Ok::<
                    ConnectRequestView,
                    StartErrorView,
                >(r@),
                Err(e) => request_of(credential_view(credential), params@) == Err::<
                    ConnectRequestView,
                    StartErrorView,
                >(e@),
            },
    {
        match credential {
            Some(c) => {
                let mut authorization = "Token ".to_owned();
                authorization.append(c);
                Ok(ConnectRequest { url: listen_url(params), authorization })
            },
            None => Err(StartError::Config),
        }
    }
}

/// The characters of a credential, where there is one.
pub open spec fn credential_view(credential: Option<&str>) -> Option<Seq<char>> {
    match credential {
        Some(c) => Some(c@),
        None => None,
    }
}

/// How the handshake with the provider ended, as the contracts see it.
pub enum HandshakeView {
    Connected,
    Failed(Seq<char>),
}

/// How the handshake with the provider ended.
#[derive(Debug, PartialEq, Eq)]
pub enum Handshake {
    /// The transport is open.
    Connected,
    /// The handshake failed; the text is the transport's description of the failure.
    Failed(String),
}

impl View for Handshake {
    type V = HandshakeView;

    open spec fn view(&self) -> HandshakeView {
        match self {
            Handshake::Connected => HandshakeView::Connected,
            Handshake::Failed(description) => HandshakeView::Failed(description@),
        }
    }
}

/// What came of opening a session: its number or the error, and the event that reports
/// either.
#[derive(Debug, PartialEq, Eq)]
pub struct Opened {
    pub result: Result<u64, StartError>,
    pub event: ConnectionStatusEvent,
}

/// The error that reports a failed handshake.
pub open spec fn connect_error_of(description: Seq<char>) -> StartErrorView {
    StartErrorView::Connect {
        category: category_of(description),
        message: failure_message_of(description),
    }
}

/// The event that reports a failed handshake.
pub open spec fn connect_event_of(description: Seq<char>) -> ConnectionStatusView {
    ConnectionStatusView { status: Status::Error, message: failure_message_of(description) }
}

/// Ends the opening of a session once the handshake is over. After a handshake that
/// succeeded the session is started, and superseded what was there. After one that failed
/// the state is what it was, and the failure is reported twice: as the result and as an event.
pub fn open(state: &mut SessionState, params: SessionParams, handshake: Handshake) -> (opened:
    Opened)
    ensures
        match handshake {
            Handshake::Connected => {
                &&& final(state)@ == old(state)@.start(params@)
                &&& opened.result == Ok::<u64, StartError>(final(state)@.session)
                &&& opened.event@ == (ConnectionStatusView {
                    status: Status::Connected,
                    message: connected_message(),
                })
            },
            Handshake::Failed(description) => {
                &&& final(state)@ == old(state)@
                &&& opened.result is Err
                &&& opened.result->Err_0@ == connect_error_of(description@)
                &&& opened.event@ == connect_event_of(description@)
            },
        },
{
    match handshake {
        Handshake::Connected => {
            let session = state.start(params);
            Opened { result: Ok(session), event: ConnectionStatusEvent::connected() }
        },
        Handshake::Failed(description) => {
            let category = classify(description.as_str());
            let message = failure_message(description.as_str());
            let event = ConnectionStatusEvent::error(message.clone());
            Opened { result: Err(StartError::Connect { category, message }), event }
        },
    }
}

} // verus!
