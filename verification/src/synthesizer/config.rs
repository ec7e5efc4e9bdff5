//! The configuration of speech synthesis.
use vstd::prelude::*;

use super::AudioFormat;
use crate::config::Device;

verus! {

/// The configuration of speech synthesis: the device, the audio format, and
/// which metadata the service reports along with the audio.
#[derive(Debug, Clone)]
pub struct Config {
    pub device: Device,
    pub output_format: AudioFormat,
    pub auto_detect_language: bool,
    pub bookmark_enabled: bool,
    pub punctuation_boundary_enabled: bool,
    pub sentence_boundary_enabled: bool,
    pub session_end_enabled: bool,
    pub viseme_enabled: bool,
    pub word_boundary_enabled: bool,
}

} // verus!
