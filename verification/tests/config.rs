use azure_speech::synthesizer::AudioFormat;
use azure_speech::translator::{
    AudioDevice, Config, ConnectionType, OutputFormat, PrimaryLanguage, Profanity,
    RecognitionMode, SourceType,
};
use azure_speech::translator::Confidence;

#[test]
fn config_default_values() {
    let c = Config::default();
    assert_eq!(c.recognition_language, "en-GB");
    assert_eq!(c.target_languages, vec!["en-GB".to_string()]);
    assert_eq!(c.output_format, OutputFormat::Simple);
    assert!(!c.synthesize);
    assert_eq!(c.synthesize_format, AudioFormat::Riff16Khz16BitMonoPcm);
    assert!(c.synthesize_voice.is_none());
    assert_eq!(c.mode, RecognitionMode::Conversation);
    assert!(c.phrases.is_none());
    assert!(c.custom_models.is_none());
    assert!(c.connection_id.is_none());
    assert!(!c.store_audio);
    assert_eq!(c.profanity, Profanity::Masked);
    assert!(c.initial_silence_timeout.is_none());
}

#[test]
fn config_new_sets_languages() {
    let c = Config::new("it-IT".to_string(), "en-US".to_string());
    assert_eq!(c.recognition_language, "it-IT");
    assert_eq!(c.target_languages, vec!["en-US".to_string()]);
    assert_eq!(c.output_format, OutputFormat::Simple);
    assert_eq!(c.profanity, Profanity::Masked);
}

#[test]
fn service_names_of_settings() {
    assert_eq!(Profanity::Masked.as_str(), "masked");
    assert_eq!(Profanity::Removed.as_str(), "removed");
    assert_eq!(Profanity::Raw.as_str(), "raw");
    assert_eq!(RecognitionMode::Conversation.as_str(), "conversation");
    assert_eq!(RecognitionMode::Interactive.as_str(), "interactive");
    assert_eq!(RecognitionMode::Dictation.as_str(), "dictation");
    assert_eq!(OutputFormat::Simple.as_str(), "simple");
    assert_eq!(OutputFormat::Detailed.as_str(), "detailed");
    assert_eq!(AudioFormat::default().as_str(), "riff-16khz-16bit-mono-pcm");
}

#[test]
fn audio_device_builders() {
    let d = AudioDevice::new(SourceType::Car);
    assert_eq!(d.name, "");
    assert_eq!(d.model, "");
    assert_eq!(d.manufacturer, "");
    assert_eq!(d.source, SourceType::Car);
    assert_eq!(d.connectivity, ConnectionType::Unknown);

    let d = d
        .with_name("mic".to_string())
        .with_model("m1".to_string())
        .with_manufacturer("acme".to_string())
        .with_connectivity(ConnectionType::Wired)
        .with_source(SourceType::Headset);
    assert_eq!(d.name, "mic");
    assert_eq!(d.model, "m1");
    assert_eq!(d.manufacturer, "acme");
    assert_eq!(d.connectivity, ConnectionType::Wired);
    assert_eq!(d.source, SourceType::Headset);
}

#[test]
fn audio_device_presets() {
    assert_eq!(AudioDevice::unknown().source, SourceType::Unknown);
    assert_eq!(AudioDevice::stream().source, SourceType::Stream);
    assert_eq!(AudioDevice::file().source, SourceType::File);
    let m = AudioDevice::microphone("usb".to_string(), "acme".to_string(), ConnectionType::Bluetooth);
    assert_eq!(m.source, SourceType::Microphones);
    assert_eq!(m.name, "usb");
    assert_eq!(m.manufacturer, "acme");
    assert_eq!(m.model, "");
    assert_eq!(m.connectivity, ConnectionType::Bluetooth);
    let d = AudioDevice::default();
    assert_eq!(d.source, SourceType::Unknown);
    assert_eq!(d.connectivity, ConnectionType::Unknown);
}

#[test]
fn primary_language_new() {
    let p = PrimaryLanguage::new("en-US".to_string(), Confidence::High);
    assert_eq!(p.language, "en-US");
    assert_eq!(p.confidence, Confidence::High);
}
