pub mod language;
pub mod message;

pub use language::Language;
pub use message::{RecognitionStatus, SpeechEndDetected, SpeechStartDetected};
