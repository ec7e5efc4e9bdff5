use azure_speech::config::Device;
use azure_speech::synthesizer::utils::{speech_config_message, ssml_message, synthesis_context_message};
use azure_speech::synthesizer::{AudioFormat, Config};
use azure_speech::translator::{AudioDevice, ConnectionType, SourceType};

fn pairs(v: &[(&str, &str)]) -> Vec<(String, String)> {
    v.iter().map(|(a, b)| (a.to_string(), b.to_string())).collect()
}

fn config(os: &str, system: &str) -> Config {
    Config {
        device: Device { os: os.to_string(), system: system.to_string() },
        output_format: AudioFormat::Riff16Khz16BitMonoPcm,
        auto_detect_language: true,
        bookmark_enabled: false,
        punctuation_boundary_enabled: true,
        sentence_boundary_enabled: false,
        session_end_enabled: true,
        viseme_enabled: false,
        word_boundary_enabled: true,
    }
}

#[test]
fn speech_config_message_has_device_body() {
    let (headers, body) = speech_config_message("sid", 42, &config("linux \"x\"", "sdk"));
    assert_eq!(
        headers,
        pairs(&[
            ("X-RequestId", "sid"),
            ("Path", "speech.config"),
            ("Content-Type", "application/json"),
            ("X-Timestamp", "42"),
        ])
    );
    assert_eq!(body, r#"{"context":{"os":"linux \"x\"","system":"sdk"}}"#);
    let parsed: serde_json::Value = serde_json::from_str(&body).unwrap();
    assert_eq!(parsed["context"]["os"], "linux \"x\"");
}

#[test]
fn synthesis_context_message_has_options_body() {
    let (headers, body) = synthesis_context_message("sid", 7, &config("o", "s"));
    assert_eq!(
        headers,
        pairs(&[
            ("Content-Type", "application/json"),
            ("X-Timestamp", "7"),
            ("X-RequestId", "sid"),
            ("Path", "synthesis.context"),
        ])
    );
    assert_eq!(
        body,
        r#"{"synthesis":{"audio":{"metadataOptions":{"bookmarkEnabled":false,"punctuationBoundaryEnabled":true,"sentenceBoundaryEnabled":false,"sessionEndEnabled":true,"visemeEnabled":false,"wordBoundaryEnabled":true},"outputFormat":"riff-16khz-16bit-mono-pcm"},"language":{"autoDetection":true}}}"#
    );
}

#[test]
fn ssml_message_body_is_the_document() {
    let (headers, body) = ssml_message("sid", 9, "<speak>hi</speak>".to_string());
    assert_eq!(
        headers,
        pairs(&[
            ("Content-Type", "application/ssml+xml"),
            ("X-Timestamp", "9"),
            ("X-RequestId", "sid"),
            ("Path", "ssml"),
        ])
    );
    assert_eq!(body, "<speak>hi</speak>");
}

#[test]
fn duplicates_keep_settings() {
    let mut c = azure_speech::translator::Config::new("a".to_string(), "b".to_string());
    c.phrases = Some(vec!["p".to_string()]);
    c.custom_models = Some(vec![("k".to_string(), "v".to_string())]);
    c.synthesize_voice = Some("voice".to_string());
    let d = c.duplicate();
    assert_eq!(d.recognition_language, "a");
    assert_eq!(d.target_languages, vec!["b".to_string()]);
    assert_eq!(d.phrases, Some(vec!["p".to_string()]));
    assert_eq!(d.custom_models, Some(vec![("k".to_string(), "v".to_string())]));
    assert_eq!(d.synthesize_voice, Some("voice".to_string()));
    let dev = AudioDevice::microphone("m".to_string(), "x".to_string(), ConnectionType::Wired);
    let copy = dev.duplicate();
    assert_eq!(copy.name, "m");
    assert_eq!(copy.source, SourceType::Microphones);
}
