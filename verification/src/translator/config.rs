//! The configuration of a translation session.
use vstd::prelude::*;

use super::{Language, Voice};
use crate::config::Device;
use crate::synthesizer::AudioFormat;

verus! {

/// The configuration for the recognizer.
///
/// The configuration is used to set the parameters of the speech recognition.
#[derive(Clone, Debug)]
pub struct Config {
    pub recognition_language: Language,
    pub target_languages: Vec<Language>,
    pub output_format: OutputFormat,
    /// Synthesize the output?
    pub synthesize: bool,
    /// Only 16 kHz WAV is supported for now.
    pub synthesize_format: AudioFormat,
    pub synthesize_voice: Option<Voice>,
    pub mode: RecognitionMode,
    pub phrases: Option<Vec<String>>,
    pub custom_models: Option<Vec<(String, String)>>,
    pub connection_id: Option<String>,
    pub store_audio: bool,
    pub device: Device,
    pub profanity: Profanity,
    /// How long the service waits for speech at the start, in milliseconds.
    pub initial_silence_timeout: Option<u64>,
}

/// The configuration that `Config::default` gives, but for its languages and
/// its device.
pub open spec fn config_defaults(c: Config) -> bool {
    &&& c.output_format == OutputFormat::Simple
    &&& !c.synthesize
    &&& c.synthesize_format == AudioFormat::Riff16Khz16BitMonoPcm
    &&& c.synthesize_voice is None
    &&& c.mode == RecognitionMode::Conversation
    &&& c.phrases is None
    &&& c.custom_models is None
    &&& c.connection_id is None
    &&& !c.store_audio
    &&& c.profanity == Profanity::Masked
    &&& c.initial_silence_timeout is None
}

impl Default for Config {
    fn default() -> (r: Self)
        ensures
            r.recognition_language@ == "en-GB"@,
            r.target_languages@.len() == 1,
            r.target_languages@[0]@ == "en-GB"@,
            config_defaults(r),
            r.device.os@ == Seq::<char>::empty(),
            r.device.system@ == Seq::<char>::empty(),
    {
        let mut target_languages: Vec<Language> = Vec::new();
        target_languages.push(String::from_str("en-GB"));
        Config {
            recognition_language: String::from_str("en-GB"),
            target_languages,
            output_format: OutputFormat::default(),
            synthesize: false,
            synthesize_format: AudioFormat::default(),
            synthesize_voice: None,
            mode: RecognitionMode::default(),
            phrases: None,
            custom_models: None,
            connection_id: None,
            store_audio: false,
            device: Device::default(),
            profanity: Profanity::default(),
            initial_silence_timeout: None,
        }
    }
}

impl Config {
    /// A default configuration that translates from `recognition_language`
    /// into `target_language`.
    pub fn new(recognition_language: Language, target_language: Language) -> (r: Self)
        ensures
            r.recognition_language == recognition_language,
            r.target_languages@ == seq![target_language],
            config_defaults(r),
            r.device.os@ == Seq::<char>::empty(),
            r.device.system@ == Seq::<char>::empty(),
    {
        let d = Config::default();
        let mut target_languages: Vec<Language> = Vec::new();
        target_languages.push(target_language);
        Config {
            recognition_language,
            target_languages,
            output_format: d.output_format,
            synthesize: d.synthesize,
            synthesize_format: d.synthesize_format,
            synthesize_voice: d.synthesize_voice,
            mode: d.mode,
            phrases: d.phrases,
            custom_models: d.custom_models,
            connection_id: d.connection_id,
            store_audio: d.store_audio,
            device: d.device,
            profanity: d.profanity,
            initial_silence_timeout: d.initial_silence_timeout,
        }
    }
}

/// Whether two optional lists hold the same items.
pub open spec fn same_items<T>(a: Option<Vec<T>>, b: Option<Vec<T>>) -> bool {
    match (a, b) {
        (Some(x), Some(y)) => x@ == y@,
        (None, None) => true,
        _ => false,
    }
}

/// Whether two configurations hold the same settings: equal fields, and
/// lists with the same items.
pub open spec fn same_config(a: Config, b: Config) -> bool {
    &&& a.recognition_language == b.recognition_language
    &&& a.target_languages@ == b.target_languages@
    &&& a.output_format == b.output_format
    &&& a.synthesize == b.synthesize
    &&& a.synthesize_format == b.synthesize_format
    &&& a.synthesize_voice == b.synthesize_voice
    &&& a.mode == b.mode
    &&& same_items(a.phrases, b.phrases)
    &&& same_items(a.custom_models, b.custom_models)
    &&& a.connection_id == b.connection_id
    &&& a.store_audio == b.store_audio
    &&& a.device.os == b.device.os
    &&& a.device.system == b.device.system
    &&& a.profanity == b.profanity
    &&& a.initial_silence_timeout == b.initial_silence_timeout
}

fn copy_string(s: &String) -> (r: String)
    ensures
        r == *s,
{
    s.clone()
}

fn copy_optional_string(s: &Option<String>) -> (r: Option<String>)
    ensures
        r == *s,
{
    match s {
        Some(t) => Some(t.clone()),
        None => None,
    }
}

fn copy_strings(v: &Vec<String>) -> (r: Vec<String>)
    ensures
        r@ == v@,
{
    let mut r: Vec<String> = Vec::new();
    let mut i: usize = 0;
    while i < v.len()
        invariant
            i <= v@.len(),
            r@ == v@.take(i as int),
        decreases v@.len() - i,
    {
        r.push(v[i].clone());
        assert(r@ =~= v@.take(i + 1));
        i = i + 1;
    }
    assert(v@.take(v@.len() as int) =~= v@);
    r
}

fn copy_string_pairs(v: &Vec<(String, String)>) -> (r: Vec<(String, String)>)
    ensures
        r@ == v@,
{
    let mut r: Vec<(String, String)> = Vec::new();
    let mut i: usize = 0;
    while i < v.len()
        invariant
            i <= v@.len(),
            r@ == v@.take(i as int),
        decreases v@.len() - i,
    {
        let (a, b) = &v[i];
        r.push((a.clone(), b.clone()));
        assert(r@ =~= v@.take(i + 1));
        i = i + 1;
    }
    assert(v@.take(v@.len() as int) =~= v@);
    r
}

impl Config {
    /// A copy of the configuration with the same settings.
    pub fn duplicate(&self) -> (r: Config)
        ensures
            same_config(r, *self),
    {
        Config {
            recognition_language: copy_string(&self.recognition_language),
            target_languages: copy_strings(&self.target_languages),
            output_format: self.output_format,
            synthesize: self.synthesize,
            synthesize_format: self.synthesize_format,
            synthesize_voice: copy_optional_string(&self.synthesize_voice),
            mode: self.mode,
            phrases: match &self.phrases {
                Some(p) => Some(copy_strings(p)),
                None => None,
            },
            custom_models: match &self.custom_models {
                Some(m) => Some(copy_string_pairs(m)),
                None => None,
            },
            connection_id: copy_optional_string(&self.connection_id),
            store_audio: self.store_audio,
            device: Device {
                os: copy_string(&self.device.os),
                system: copy_string(&self.device.system),
            },
            profanity: self.profanity,
            initial_silence_timeout: self.initial_silence_timeout,
        }
    }
}

/// The profanity level.
#[derive(Debug, Clone, Copy, PartialEq, Eq, Structural)]
pub enum Profanity {
    Masked,
    Removed,
    Raw,
}

impl Default for Profanity {
    fn default() -> (r: Self)
        ensures
            r == Profanity::Masked,
    {
        Profanity::Masked
    }
}

/// The name under which the service knows a profanity level.
pub open spec fn profanity_name(p: Profanity) -> Seq<char> {
    match p {
        Profanity::Masked => "masked"@,
        Profanity::Removed => "removed"@,
        Profanity::Raw => "raw"@,
    }
}

impl Profanity {
    /// The name under which the service knows the level.
    pub fn as_str(&self) -> (r: &'static str)
        ensures
            r@ == profanity_name(*self),
    {
        match self {
            Profanity::Masked => "masked",
            Profanity::Removed => "removed",
            Profanity::Raw => "raw",
        }
    }
}

/// The configuration for the silence detection.
#[derive(Debug, Clone)]
pub struct Silence {
    pub initial_timeout_ms: Option<i32>,
    pub end_timeout_ms: Option<i32>,
    pub segmentation_timeout_ms: Option<i32>,
}

/// The recognition mode.
#[derive(Debug, Clone, Copy, PartialEq, Eq, Structural)]
pub enum RecognitionMode {
    /// Use this mode for normal conversation.
    Conversation,
    Interactive,
    Dictation,
}

impl Default for RecognitionMode {
    fn default() -> (r: Self)
        ensures
            r == RecognitionMode::Conversation,
    {
        RecognitionMode::Conversation
    }
}

/// The name under which the service knows a recognition mode.
pub open spec fn mode_name(m: RecognitionMode) -> Seq<char> {
    match m {
        RecognitionMode::Conversation => "conversation"@,
        RecognitionMode::Interactive => "interactive"@,
        RecognitionMode::Dictation => "dictation"@,
    }
}

impl RecognitionMode {
    /// The name under which the service knows the mode.
    pub fn as_str(self) -> (r: &'static str)
        ensures
            r@ == mode_name(self),
    {
        match self {
            RecognitionMode::Conversation => "conversation",
            RecognitionMode::Interactive => "interactive",
            RecognitionMode::Dictation => "dictation",
        }
    }
}

/// The output format of the messages.
#[derive(Debug, Clone, Copy, PartialEq, Eq, Structural)]
pub enum OutputFormat {
    Simple,
    Detailed,
}

impl Default for OutputFormat {
    fn default() -> (r: Self)
        ensures
            r == OutputFormat::Simple,
    {
        OutputFormat::Simple
    }
}

/// The name under which the service knows an output format.
pub open spec fn output_format_name(f: OutputFormat) -> Seq<char> {
    match f {
        OutputFormat::Simple => "simple"@,
        OutputFormat::Detailed => "detailed"@,
    }
}

impl OutputFormat {
    /// The name under which the service knows the format.
    pub fn as_str(&self) -> (r: &'static str)
        ensures
            r@ == output_format_name(*self),
    {
        match self {
            OutputFormat::Simple => "simple",
            OutputFormat::Detailed => "detailed",
        }
    }
}

/// How the primary language of the speech is detected.
#[derive(Debug, Clone, Copy, PartialEq, Eq, Structural)]
pub enum LanguageDetectMode {
    /// Detect the language continuously.
    Continuous,
    /// Detect the language at the start of the audio.
    AtStart,
}

impl Default for LanguageDetectMode {
    fn default() -> (r: Self)
        ensures
            r == LanguageDetectMode::Continuous,
    {
        LanguageDetectMode::Continuous
    }
}

/// Details of the source.
///
/// This is used to provide information about the source.
#[derive(Debug, Clone)]
pub struct AudioDevice {
    /// Name of the Audio Device
    pub name: String,
    /// Model of the Audio Device
    pub model: String,
    /// Manufacturer of the Audio Device
    pub manufacturer: String,
    /// Type of the Audio Device
    pub source: SourceType,
    /// Connectivity of the Audio Device
    pub connectivity: ConnectionType,
}

#[derive(Debug, Clone, Copy, PartialEq, Eq, Structural)]
pub enum ConnectionType {
    Bluetooth,
    Wired,
    WiFi,
    Cellular,
    InBuilt,
    Unknown,
}

impl Default for ConnectionType {
    fn default() -> (r: Self)
        ensures
            r == ConnectionType::Unknown,
    {
        ConnectionType::Unknown
    }
}

#[derive(Debug, Clone, Copy, PartialEq, Eq, Structural)]
pub enum SourceType {
    Phone,
    Speaker,
    Car,
    Headset,
    Thermostat,
    Microphones,
    Deskphone,
    RemoteControl,
    Unknown,
    File,
    Stream,
}

impl Default for SourceType {
    fn default() -> (r: Self)
        ensures
            r == SourceType::Unknown,
    {
        SourceType::Unknown
    }
}

impl Default for AudioDevice {
    fn default() -> (r: Self)
        ensures
            r.name@ == Seq::<char>::empty(),
            r.model@ == Seq::<char>::empty(),
            r.manufacturer@ == Seq::<char>::empty(),
            r.source == SourceType::Unknown,
            r.connectivity == ConnectionType::Unknown,
    {
        AudioDevice {
            name: String::new(),
            model: String::new(),
            manufacturer: String::new(),
            source: SourceType::default(),
            connectivity: ConnectionType::default(),
        }
    }
}

impl AudioDevice {
    /// Create a new Details instance
    pub fn new(source: SourceType) -> (r: Self)
        ensures
            r.name@ == Seq::<char>::empty(),
            r.model@ == Seq::<char>::empty(),
            r.manufacturer@ == Seq::<char>::empty(),
            r.source == source,
            r.connectivity == ConnectionType::Unknown,
    {
        let d = AudioDevice::default();
        AudioDevice {
            name: d.name,
            model: d.model,
            manufacturer: d.manufacturer,
            source,
            connectivity: d.connectivity,
        }
    }

    pub fn with_name(self, name: String) -> (r: Self)
        ensures
            r == (AudioDevice { name, ..self }),
    {
        AudioDevice { name, ..self }
    }

    pub fn with_model(self, model: String) -> (r: Self)
        ensures
            r == (AudioDevice { model, ..self }),
    {
        AudioDevice { model, ..self }
    }

    pub fn with_manufacturer(self, manufacturer: String) -> (r: Self)
        ensures
            r == (AudioDevice { manufacturer, ..self }),
    {
        AudioDevice { manufacturer, ..self }
    }

    pub fn with_connectivity(self, connectivity: ConnectionType) -> (r: Self)
        ensures
            r == (AudioDevice { connectivity, ..self }),
    {
        AudioDevice { connectivity, ..self }
    }

    pub fn with_source(self, source: SourceType) -> (r: Self)
        ensures
            r == (AudioDevice { source, ..self }),
    {
        AudioDevice { source, ..self }
    }

    pub fn unknown() -> (r: Self)
        ensures
            r.name@ == Seq::<char>::empty(),
            r.model@ == Seq::<char>::empty(),
            r.manufacturer@ == Seq::<char>::empty(),
            r.source == SourceType::Unknown,
            r.connectivity == ConnectionType::Unknown,
    {
        AudioDevice::new(SourceType::Unknown)
    }

    pub fn stream() -> (r: Self)
        ensures
            r.name@ == Seq::<char>::empty(),
            r.model@ == Seq::<char>::empty(),
            r.manufacturer@ == Seq::<char>::empty(),
            r.source == SourceType::Stream,
            r.connectivity == ConnectionType::Unknown,
    {
        AudioDevice::new(SourceType::Stream)
    }

    pub fn microphone(name: String, manufacture: String, connectivity: ConnectionType) -> (r: Self)
        ensures
            r.name == name,
            r.model@ == Seq::<char>::empty(),
            r.manufacturer == manufacture,
            r.source == SourceType::Microphones,
            r.connectivity == connectivity,
    {
        AudioDevice::new(SourceType::Microphones).with_connectivity(connectivity).with_manufacturer(
            manufacture,
        ).with_name(name)
    }

    /// A copy of the device description.
    pub fn duplicate(&self) -> (r: Self)
        ensures
            r == *self,
    {
        AudioDevice {
            name: copy_string(&self.name),
            model: copy_string(&self.model),
            manufacturer: copy_string(&self.manufacturer),
            source: self.source,
            connectivity: self.connectivity,
        }
    }

    pub fn file() -> (r: Self)
        ensures
            r.name@ == Seq::<char>::empty(),
            r.model@ == Seq::<char>::empty(),
            r.manufacturer@ == Seq::<char>::empty(),
            r.source == SourceType::File,
            r.connectivity == ConnectionType::Unknown,
    {
        AudioDevice::new(SourceType::File)
    }
}

} // verus!
