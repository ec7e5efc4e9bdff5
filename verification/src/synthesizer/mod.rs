//! Settings of speech synthesis.
pub mod config;
pub mod utils;

pub use config::Config;

use vstd::prelude::*;

verus! {

/// The audio format of synthesized speech.
#[derive(Debug, Clone, Copy, PartialEq, Eq, Structural)]
pub enum AudioFormat {
    /// RIFF (WAV) container, 16 kHz, 16 bit, mono PCM.
    Riff16Khz16BitMonoPcm,
}

impl Default for AudioFormat {
    fn default() -> (r: Self)
        ensures
            r == AudioFormat::Riff16Khz16BitMonoPcm,
    {
        AudioFormat::Riff16Khz16BitMonoPcm
    }
}

impl AudioFormat {
    /// The name of the format as the service expects it.
    pub fn as_str(&self) -> (r: &'static str)
        ensures
            r@ == "riff-16khz-16bit-mono-pcm"@,
    {
        "riff-16khz-16bit-mono-pcm"
    }
}

} // verus!
