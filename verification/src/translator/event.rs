//! The events of a translation session.
use vstd::prelude::*;

use super::Language;
use crate::connector::RequestId;
use crate::text::{str_eq, to_lowercase, lowercase};

verus! {

/// The raw text of message.
///
/// The raw message is the message received from the speech recognition service.
pub type RawMessage = String;

/// The offset of the speech recognition.
///
/// The offset is the time in milliseconds from the start of the conversation.
pub type Offset = u64;

/// The duration of the speech recognition.
///
/// The duration is the time in milliseconds of the speech recognition.
pub type Duration = u64;

/// Translator events.
///
/// The events are used to notify the user of the progress of the translation.
#[derive(Debug, Clone, PartialEq, Eq)]
pub enum Event {
    /// The session started.
    SessionStarted(RequestId),
    /// The session ended.
    SessionEnded(RequestId),
    /// The speech recognition started.
    StartDetected(RequestId, Offset),
    /// The speech recognition ended.
    EndDetected(RequestId, Offset),
    /// Synthesized speech of the translation, as 16-bit samples.
    TranslationSynthesis(RequestId, Vec<i16>),
    /// An intermediate translation.
    Translating(RequestId, String, Offset, Duration, RawMessage),
    /// A final translation.
    Translated(RequestId, String, Offset, Duration, RawMessage),
    /// UnMatch event.
    /// This event is triggered when the speech recognition does not match any text.
    NoMatch(RequestId, Offset, Duration, RawMessage),
}

/// The request that an event belongs to.
pub open spec fn event_request_id(e: Event) -> RequestId {
    match e {
        Event::SessionStarted(id) => id,
        Event::SessionEnded(id) => id,
        Event::StartDetected(id, _) => id,
        Event::EndDetected(id, _) => id,
        Event::TranslationSynthesis(id, _) => id,
        Event::Translating(id, _, _, _, _) => id,
        Event::Translated(id, _, _, _, _) => id,
        Event::NoMatch(id, _, _, _) => id,
    }
}

/// The confidence of the speech recognition.
#[derive(Debug, Clone, Copy, PartialEq, Eq, Structural)]
pub enum Confidence {
    Low,
    Normal,
    High,
    Unknown,
}

impl Default for Confidence {
    fn default() -> (r: Self)
        ensures
            r == Confidence::Unknown,
    {
        Confidence::Unknown
    }
}

/// The confidence that an already lowercased name stands for.
pub open spec fn confidence_of_lowercase(s: Seq<char>) -> Confidence {
    if s == "low"@ {
        Confidence::Low
    } else if s == "normal"@ {
        Confidence::Normal
    } else if s == "high"@ {
        Confidence::High
    } else {
        Confidence::Unknown
    }
}

/// The names of the confidence levels, once lowercased: `low`, `normal` and
/// `high` name their levels, and every other text stands for an unknown
/// confidence.
pub proof fn lemma_confidence_names(s: Seq<char>)
    ensures
        confidence_of_lowercase("low"@) == Confidence::Low,
        confidence_of_lowercase("normal"@) == Confidence::Normal,
        confidence_of_lowercase("high"@) == Confidence::High,
        s != "low"@ && s != "normal"@ && s != "high"@ ==> confidence_of_lowercase(s)
            == Confidence::Unknown,
{
    reveal_strlit("low");
    reveal_strlit("normal");
    reveal_strlit("high");
    assert("low"@.len() == 3);
    assert("normal"@.len() == 6);
    assert("high"@.len() == 4);
}

impl Confidence {
    /// The confidence named by `s`, a name already in lowercase.
    pub fn from_lowercase(s: &str) -> (r: Confidence)
        ensures
            r == confidence_of_lowercase(s@),
    {
        if str_eq(s, "low") {
            Confidence::Low
        } else if str_eq(s, "normal") {
            Confidence::Normal
        } else if str_eq(s, "high") {
            Confidence::High
        } else {
            Confidence::Unknown
        }
    }
}

impl vstd::std_specs::convert::FromSpecImpl<String> for Confidence {
    open spec fn obeys_from_spec() -> bool {
        true
    }

    open spec fn from_spec(v: String) -> Confidence {
        confidence_of_lowercase(lowercase(v@))
    }
}

impl From<String> for Confidence {
    fn from(value: String) -> (r: Self) {
        let lower = to_lowercase(value.as_str());
        Confidence::from_lowercase(lower.as_str())
    }
}

impl<'a> vstd::std_specs::convert::FromSpecImpl<&'a str> for Confidence {
    open spec fn obeys_from_spec() -> bool {
        true
    }

    open spec fn from_spec(v: &'a str) -> Confidence {
        confidence_of_lowercase(lowercase(v@))
    }
}

impl<'a> From<&'a str> for Confidence {
    fn from(value: &'a str) -> (r: Self) {
        Confidence::from(String::from_str(value))
    }
}

/// Primary language
#[derive(Debug, Clone, PartialEq, Eq)]
pub struct PrimaryLanguage {
    /// The language code
    pub language: Language,
    /// The confidence of the language detection
    pub confidence: Confidence,
}

impl PrimaryLanguage {
    pub fn new(language: Language, confidence: Confidence) -> (r: Self)
        ensures
            r.language == language,
            r.confidence == confidence,
    {
        PrimaryLanguage { language, confidence }
    }
}

} // verus!
