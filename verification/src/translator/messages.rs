//! The bodies of the messages that the translation service sends.
use vstd::prelude::*;

use super::{Duration, Language, Offset};

verus! {

pub type SpeechStartDetected = crate::recognizer::message::SpeechStartDetected;

pub type SpeechEndDetected = crate::recognizer::message::SpeechEndDetected;

pub type RecognitionStatus = crate::recognizer::message::RecognitionStatus;

/// The `audio.start` body.
#[derive(Debug, Clone)]
pub struct AudioStart {
    pub translation_language: Language,
}

/// The `audio.end` body.
#[derive(Debug, Clone)]
pub struct AudioEnd {
    pub status: SynthesisStatus,
}

/// The `translation.hypothesis` body.
#[derive(Debug, Clone)]
pub struct TranslationHypothesis {
    pub text: String,
    pub offset: Offset,
    pub duration: Duration,
    pub translation: Translation,
}

/// The `translation.phrase` body.
#[derive(Debug, Clone)]
pub struct TranslationPhrase {
    pub text: Option<String>,
    pub offset: Offset,
    pub duration: Duration,
    pub recognition_status: RecognitionStatus,
    pub translation: Translation,
}

/// The translations that a body carries.
#[derive(Debug, Clone)]
pub struct Translation {
    pub translation_status: TranslationStatus,
    pub translations: Vec<TranslationItem>,
}

/// One translation.
#[derive(Debug, Clone)]
pub struct TranslationItem {
    pub text: String,
}

/// The status of a translation.
#[derive(Debug, Clone, Copy, PartialEq, Eq, Structural)]
pub enum TranslationStatus {
    Success,
    NoMatch,
    InitialSilenceTimeout,
    BabbleTimeout,
    Error,
    EndOfDictation,
    TooManyRequests,
    BadRequest,
    Forbidden,
}

/// The status of a synthesis.
#[derive(Debug, Clone, Copy, PartialEq, Eq, Structural)]
pub enum SynthesisStatus {
    Success,
    Error,
}

} // verus!
