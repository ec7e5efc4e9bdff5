//! Message bodies shared by the recognizer and the translator.
use vstd::prelude::*;

use crate::error::Error;

verus! {

/// The `speech.startdetected` body.
#[derive(Debug, Clone, PartialEq, Eq)]
pub struct SpeechStartDetected {
    pub offset: u64,
}

/// The `speech.enddetected` body.
#[derive(Debug, Clone, PartialEq, Eq)]
pub struct SpeechEndDetected {
    pub offset: u64,
}

impl Default for SpeechEndDetected {
    fn default() -> (r: Self)
        ensures
            r.offset == 0,
    {
        SpeechEndDetected { offset: 0 }
    }
}

/// The status of a recognition, as the service reports it.
#[derive(Debug, Clone, Copy, PartialEq, Eq)]
pub enum RecognitionStatus {
    Success,
    NoMatch,
    InitialSilenceTimeout,
    BabbleTimeout,
    Error,
    EndOfDictation,
    TooManyRequests,
    BadRequest,
    Forbidden,
}

/// The error that a recognition status stands for, if any.
pub open spec fn status_error_spec(status: RecognitionStatus) -> Option<Error> {
    match status {
        RecognitionStatus::Error => Some(Error::RecognitionError),
        RecognitionStatus::TooManyRequests => Some(Error::TooManyRequests),
        RecognitionStatus::BadRequest => Some(Error::BadRequest),
        RecognitionStatus::Forbidden => Some(Error::Forbidden),
        _ => None,
    }
}

impl RecognitionStatus {
    /// The error that this status stands for: the statuses that report a
    /// failure of the service give an error, the others none.
    pub fn error(&self) -> (r: Option<Error>)
        ensures
            r == status_error_spec(*self),
    {
        match self {
            RecognitionStatus::Error => Some(Error::RecognitionError),
            RecognitionStatus::TooManyRequests => Some(Error::TooManyRequests),
            RecognitionStatus::BadRequest => Some(Error::BadRequest),
            RecognitionStatus::Forbidden => Some(Error::Forbidden),
            _ => None,
        }
    }
}

/// The statuses that report a failure of the service each stand for their
/// own error (`Error` for a recognition error, then too many requests, a bad
/// request, a forbidden request); a recognition that ran, whether it matched,
/// timed out or ended a dictation, stands for none.
pub proof fn lemma_status_errors()
    ensures
        status_error_spec(RecognitionStatus::Error) == Some(Error::RecognitionError),
        status_error_spec(RecognitionStatus::TooManyRequests) == Some(Error::TooManyRequests),
        status_error_spec(RecognitionStatus::BadRequest) == Some(Error::BadRequest),
        status_error_spec(RecognitionStatus::Forbidden) == Some(Error::Forbidden),
        status_error_spec(RecognitionStatus::Success) is None,
        status_error_spec(RecognitionStatus::NoMatch) is None,
        status_error_spec(RecognitionStatus::InitialSilenceTimeout) is None,
        status_error_spec(RecognitionStatus::BabbleTimeout) is None,
        status_error_spec(RecognitionStatus::EndOfDictation) is None,
{
}

} // verus!
