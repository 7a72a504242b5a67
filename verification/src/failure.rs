use vstd::prelude::*;
use vstd::utf8::encode_utf8;
use crate::text::{mentions, mentions_bytes};

verus! {

/// The kinds of failed handshake that the user is told apart.
#[derive(Clone, Copy, Debug, PartialEq, Eq, Structural)]
pub enum ConnectCategory {
    /// The machine has no way to reach the provider.
    NoNetwork,
    /// The provider was reached, or should have been, and the connection did not come about.
    ConnectFailed,
    /// Anything else.
    Other,
}

/// A description mentions `word`, in UTF-8 and whatever the case of its ASCII letters.
pub open spec fn says(description: Seq<char>, word: Seq<char>) -> bool {
    mentions(encode_utf8(description), encode_utf8(word))
}

/// The kind of failure that a low-level description speaks of.
pub open spec fn category_of(description: Seq<char>) -> ConnectCategory {
    if says(description, "dns"@) || says(description, "lookup"@) || says(
        description,
        "unreachable"@,
    ) {
        ConnectCategory::NoNetwork
    } else if says(description, "connect"@) || says(description, "refused"@) || says(
        description,
        "timed out"@,
    ) {
        ConnectCategory::ConnectFailed
    } else {
        ConnectCategory::Other
    }
}

/// What the user is told of a failed handshake: a fixed sentence for the two kinds that have
/// one, and the description itself otherwise.
pub open spec fn failure_message_of(description: Seq<char>) -> Seq<char> {
    match category_of(description) {
        ConnectCategory::NoNetwork => "No network connection"@,
        ConnectCategory::ConnectFailed => "Could not connect to the transcription service"@,
        ConnectCategory::Other => description,
    }
}

fn says_word(description: &str, word: &str) -> (found: bool)
    ensures
        found == says(description@, word@),
{
    mentions_bytes(description.as_bytes(), word.as_bytes())
}

/// The kind of failure that `description` speaks of.
pub fn classify(description: &str) -> (category: ConnectCategory)
    ensures
        category == category_of(description@),
{
    if says_word(description, "dns") || says_word(description, "lookup") || says_word(
        description,
        "unreachable",
    ) {
        ConnectCategory::NoNetwork
    } else if says_word(description, "connect") || says_word(description, "refused") || says_word(
        description,
        "timed out",
    ) {
        ConnectCategory::ConnectFailed
    } else {
        ConnectCategory::Other
    }
}

/// What the user is told of a failed handshake.
pub fn failure_message(description: &str) -> (message: String)
    ensures
        message@ == failure_message_of(description@),
{
    match classify(description) {
        ConnectCategory::NoNetwork => "No network connection".to_owned(),
        ConnectCategory::ConnectFailed => "Could not connect to the transcription service".to_owned(),
        ConnectCategory::Other => description.to_owned(),
    }
}

/// What a [`StartError`] holds.
pub enum StartErrorView {
    Config,
    Connect { category: ConnectCategory, message: Seq<char> },
}

/// Why a session did not start.
#[derive(Debug, PartialEq, Eq)]
pub enum StartError {
    /// The credential is not configured.
    Config,
    /// The handshake with the provider failed.
    Connect { category: ConnectCategory, message: String },
}

impl View for StartError {
    type V = StartErrorView;

    open spec fn view(&self) -> StartErrorView {
        match self {
            StartError::Config => StartErrorView::Config,
            StartError::Connect { category, message } => StartErrorView::Connect {
                category: *category,
                message: message@,
            },
        }
    }
}

impl StartErrorView {
    /// The sentence that reports this error.
    pub open spec fn message(self) -> Seq<char> {
        match self {
            StartErrorView::Config => "Missing DEEPGRAM_API_KEY"@,
            StartErrorView::Connect { message, .. } => message,
        }
    }
}

impl StartError {
    /// The sentence that reports this error.
    pub fn message(&self) -> (message: String)
        ensures
            message@ == self@.message(),
    {
        match self {
            StartError::Config => "Missing DEEPGRAM_API_KEY".to_owned(),
            StartError::Connect { message, .. } => message.clone(),
        }
    }
}

/// Why a chunk of audio was not taken.
#[derive(Clone, Copy, Debug, PartialEq, Eq, Structural)]
pub enum PushError {
    /// The queue is still installed, and the pipeline that drained it has failed.
    ChannelClosed,
}

impl PushError {
    /// The sentence that reports this error.
    pub fn message(&self) -> (message: String)
        ensures
            message@ == "audio channel closed"@,
    {
        "audio channel closed".to_owned()
    }
}

} // verus!
