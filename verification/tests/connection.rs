use azure_speech::synthesizer::utils::{speech_config_headers, ssml_headers, synthesis_context_headers};
use azure_speech::text::{contains, decimal_string, join, starts_with, str_eq};
use azure_speech::translator::client::translation_endpoint_url;
use azure_speech::translator::{Client, Config, OutputFormat, Profanity, RecognitionMode};
use azure_speech::utils::get_azure_hostname_from_region;
use azure_speech::{Auth, Error};

fn pairs(v: &[(&str, &str)]) -> Vec<(String, String)> {
    v.iter().map(|(a, b)| (a.to_string(), b.to_string())).collect()
}

#[test]
fn default_query() {
    let q = Client::<()>::connection_query(&Config::default());
    assert_eq!(
        q,
        pairs(&[
            ("language", "en-GB"),
            ("from", "en-GB"),
            ("to", "en-GB"),
            ("format", "simple"),
            ("profanity", "masked"),
            ("storeAudio", "false"),
            ("scenario", "conversation"),
        ])
    );
}

#[test]
fn full_query() {
    let mut c = Config::new("it-IT".to_string(), "en-US".to_string());
    c.target_languages.push("fr-FR".to_string());
    c.output_format = OutputFormat::Detailed;
    c.profanity = Profanity::Raw;
    c.store_audio = true;
    c.mode = RecognitionMode::Dictation;
    c.initial_silence_timeout = Some(5000);
    c.synthesize = true;
    c.synthesize_voice = Some("voice-a".to_string());
    c.connection_id = Some("conn".to_string());
    let q = Client::<()>::connection_query(&c);
    assert_eq!(
        q,
        pairs(&[
            ("language", "it-IT"),
            ("from", "it-IT"),
            ("to", "en-US,fr-FR"),
            ("format", "detailed"),
            ("profanity", "raw"),
            ("storeAudio", "true"),
            ("scenario", "dictation"),
            ("initialSilenceTimeoutMs", "5000"),
            ("features", "texttospeech"),
            ("voice", "voice-a"),
            ("wordLevelTimestamps", "true"),
            ("X-ConnectionId", "conn"),
        ])
    );
}

#[test]
fn host_suffixes() {
    assert_eq!(get_azure_hostname_from_region("westeurope"), ".microsoft.com");
    assert_eq!(get_azure_hostname_from_region("chinaeast2"), ".azure.cn");
    assert_eq!(get_azure_hostname_from_region("USGovVirginia"), ".azure.us");
}

#[test]
fn endpoint_of_region() {
    assert_eq!(
        translation_endpoint_url("westeurope"),
        "wss://westeurope.s2s.speech.microsoft.com/speech/translation/cognitiveservices/v1"
    );
}

#[test]
fn connection_url_of_subscription() {
    let auth = Auth::from_subscription("westeurope".to_string(), "k".to_string());
    let url = Client::<()>::connection_url(&auth, &Config::default()).unwrap();
    assert_eq!(
        url,
        "wss://westeurope.s2s.speech.microsoft.com/speech/translation/cognitiveservices/v1?language=en-GB&from=en-GB&to=en-GB&format=simple&profanity=masked&storeAudio=false&scenario=conversation"
    );
}

#[test]
fn connection_url_of_host_keeps_the_host() {
    let auth = Auth::from_host("ws://localhost:5000/speech?x=1#frag".to_string(), "k".to_string());
    assert_eq!(auth.key(), "k");
    let url = Client::<()>::connection_url(&auth, &Config::new("a b".to_string(), "c".to_string())).unwrap();
    assert_eq!(
        url,
        "ws://localhost:5000/speech?x=1&language=a+b&from=a+b&to=c&format=simple&profanity=masked&storeAudio=false&scenario=conversation#frag"
    );
}

#[test]
fn connection_url_of_bad_region() {
    let auth = Auth::from_subscription("bad region[".to_string(), "k".to_string());
    let r = Client::<()>::connection_url(&auth, &Config::default());
    assert!(matches!(r, Err(Error::InvalidUrl(_))));
}

#[test]
fn connection_url_of_bad_host() {
    let auth = Auth::from_host("not a url".to_string(), "k".to_string());
    let r = Client::<()>::connection_url(&auth, &Config::default());
    assert!(matches!(r, Err(Error::InvalidUrl(_))));
}

#[test]
fn connection_url_too_long() {
    let auth = Auth::from_subscription("westeurope".to_string(), "k".to_string());
    let mut c = Config::default();
    c.connection_id = Some("x".repeat(4_000_000));
    let r = Client::<()>::connection_url(&auth, &c);
    assert_eq!(r, Err(Error::InvalidUrl("URL too long".to_string())));
}

#[test]
fn auth_key() {
    assert_eq!(Auth::from_subscription("r".to_string(), "secret".to_string()).key(), "secret");
}

#[test]
fn text_helpers() {
    assert_eq!(decimal_string(0), "0");
    assert_eq!(decimal_string(1234567890123), "1234567890123");
    assert_eq!(join(&vec![], ","), "");
    assert_eq!(join(&vec!["a".to_string()], ","), "a");
    assert_eq!(join(&vec!["a".to_string(), "b".to_string(), "c".to_string()], ", "), "a, b, c");
    assert!(str_eq("héllo", "héllo"));
    assert!(!str_eq("hello", "hell"));
    assert!(starts_with("usgovtexas", "usgov"));
    assert!(!starts_with("us", "usgov"));
    assert!(contains("xxchinayy", "china"));
    assert!(!contains("chin", "china"));
    assert!(contains("abc", ""));
}

#[test]
fn synthesis_message_headers() {
    assert_eq!(
        speech_config_headers("sid", 1700000000123),
        pairs(&[
            ("X-RequestId", "sid"),
            ("Path", "speech.config"),
            ("Content-Type", "application/json"),
            ("X-Timestamp", "1700000000123"),
        ])
    );
    assert_eq!(
        synthesis_context_headers("sid", 5),
        pairs(&[
            ("Content-Type", "application/json"),
            ("X-Timestamp", "5"),
            ("X-RequestId", "sid"),
            ("Path", "synthesis.context"),
        ])
    );
    assert_eq!(
        ssml_headers("sid", 5),
        pairs(&[
            ("Content-Type", "application/ssml+xml"),
            ("X-Timestamp", "5"),
            ("X-RequestId", "sid"),
            ("Path", "ssml"),
        ])
    );
}
