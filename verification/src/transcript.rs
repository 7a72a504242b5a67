use vstd::prelude::*;
use crate::events::{TranscriptEvent, TranscriptEventView};
use crate::json::{json_from_str, Json, JsonValue};

verus! {

/// What one message of the provider says, once decoded.
pub struct RecognitionView {
    pub transcript: Seq<char>,
    pub is_final: bool,
}

/// What one message of the provider says, once decoded. The transcript may be empty.
#[derive(Debug, PartialEq, Eq)]
pub struct Recognition {
    pub transcript: String,
    pub is_final: bool,
}

impl View for Recognition {
    type V = RecognitionView;

    open spec fn view(&self) -> RecognitionView {
        RecognitionView { transcript: self.transcript@, is_final: self.is_final }
    }
}

/// The first entry of `channel.alternatives`, where the document has one.
pub open spec fn first_alternative(doc: JsonValue) -> Option<JsonValue> {
    match doc.member("channel"@) {
        Some(channel) => match channel.member("alternatives"@) {
            Some(alternatives) => alternatives.element(0),
            None => None,
        },
        None => None,
    }
}

/// The text of `value` where it is a JSON string, and the empty text otherwise.
pub open spec fn text_or_empty(value: Option<JsonValue>) -> Seq<char> {
    match value {
        Some(JsonValue::Text(t)) => t,
        _ => Seq::empty(),
    }
}

/// The value of `value` where it is a JSON boolean, and `false` otherwise.
pub open spec fn flag_or_false(value: Option<JsonValue>) -> bool {
    match value {
        Some(JsonValue::Bool(b)) => b,
        _ => false,
    }
}

/// What a document says: the `transcript` of its first alternative and its own `is_final`.
/// A document without a first alternative says nothing.
pub open spec fn recognition_of(doc: JsonValue) -> Option<RecognitionView> {
    match first_alternative(doc) {
        Some(alternative) => Some(
            RecognitionView {
                transcript: text_or_empty(alternative.member("transcript"@)),
                is_final: flag_or_false(doc.member("is_final"@)),
            },
        ),
        None => None,
    }
}

/// The event that a decoded message gives rise to: none for an empty transcript.
pub open spec fn event_of_recognition(said: RecognitionView) -> Option<TranscriptEventView> {
    if said.transcript.len() == 0 {
        None
    } else {
        Some(TranscriptEventView { text: said.transcript, is_final: said.is_final })
    }
}

/// The event that a document gives rise to.
pub open spec fn event_of_document(doc: JsonValue) -> Option<TranscriptEventView> {
    match recognition_of(doc) {
        Some(said) => event_of_recognition(said),
        None => None,
    }
}

/// The event that the text of an inbound frame gives rise to. Text that is no JSON document
/// gives none.
pub open spec fn event_of_text(text: Seq<char>) -> Option<TranscriptEventView> {
    match json_from_str(text) {
        Some(doc) => event_of_document(doc),
        None => None,
    }
}

impl Recognition {
    /// Decodes a message of the provider.
    pub fn decode(doc: &Json) -> (said: Option<Recognition>)
        ensures
            match said {
                Some(r) => recognition_of(doc@) == Some(r@),
                None => recognition_of(doc@) is None,
            },
    {
        let channel = match doc.member("channel") {
            Some(channel) => channel,
            None => { return None; },
        };
        let alternatives = match channel.member("alternatives") {
            Some(alternatives) => alternatives,
            None => { return None; },
        };
        let alternative = match alternatives.element(0) {
            Some(alternative) => alternative,
            None => { return None; },
        };
        let transcript = match alternative.member("transcript") {
            Some(value) => match value.as_text() {
                Some(text) => text.to_owned(),
                None => String::new(),
            },
            None => String::new(),
        };
        let is_final = match doc.member("is_final") {
            Some(value) => match value.as_flag() {
                Some(flag) => flag,
                None => false,
            },
            None => false,
        };
        Some(Recognition { transcript, is_final })
    }

    /// The event to publish for this message, if it has a transcript.
    pub fn into_event(self) -> (event: Option<TranscriptEvent>)
        ensures
            match event {
                Some(e) => event_of_recognition(self@) == Some(e@),
                None => event_of_recognition(self@) is None,
            },
    {
        TranscriptEvent::new(self.transcript, self.is_final)
    }
}

/// The event to publish for a document of the provider.
pub fn document_event(doc: &Json) -> (event: Option<TranscriptEvent>)
    ensures
        match event {
            Some(e) => event_of_document(doc@) == Some(e@),
            None => event_of_document(doc@) is None,
        },
{
    match Recognition::decode(doc) {
        Some(said) => said.into_event(),
        None => None,
    }
}

/// The event to publish for the text of an inbound frame.
pub fn text_event(text: &str) -> (event: Option<TranscriptEvent>)
    ensures
        match event {
            Some(e) => event_of_text(text@) == Some(e@),
            None => event_of_text(text@) is None,
        },
{
    match Json::parse(text) {
        Some(doc) => document_event(&doc),
        None => None,
    }
}

} // verus!
