pub mod audio;
pub mod client;
pub mod config;
pub mod event;
pub mod messages;
pub mod translation;

pub use client::Client;
pub use config::{
    AudioDevice, Config, ConnectionType, LanguageDetectMode, OutputFormat, Profanity,
    RecognitionMode, Silence, SourceType,
};
pub use event::{Confidence, Duration, Event, Offset, PrimaryLanguage, RawMessage};

use vstd::prelude::*;

verus! {

/// A language code, such as `en-GB`.
pub type Language = String;

/// The name of a synthesis voice.
pub type Voice = String;

} // verus!
