use azure_speech::recognizer::Language;
use azure_speech::translator::Confidence;

#[test]
fn language_code_of_named_language() {
    assert_eq!(Language::EnGb.to_string(), "en-GB");
    assert_eq!(Language::FilPh.to_string(), "fil-PH");
    assert_eq!(Language::ZuZa.to_string(), "zu-ZA");
}

#[test]
fn language_from_known_code() {
    assert_eq!(Language::from("it-IT"), Language::ItIt);
    assert_eq!(Language::from(String::from("zh-TW")), Language::ZhTw);
    assert_eq!(Language::from("af-ZA"), Language::AfZa);
}

#[test]
fn language_from_unknown_code_is_custom() {
    assert_eq!(Language::from("xx-YY"), Language::Custom("xx-YY".to_string()));
    // Codes are matched exactly, case included.
    assert_eq!(Language::from("en-gb"), Language::Custom("en-gb".to_string()));
    assert_eq!(Language::from(""), Language::Custom(String::new()));
}

#[test]
fn language_default_is_british_english() {
    assert_eq!(Language::default(), Language::EnGb);
}

#[test]
fn language_code_round_trip() {
    for code in ["en-US", "pt-BR", "sw-TZ", "not-a-code", "EN-US"] {
        assert_eq!(Language::from(code).to_string(), code);
    }
    for l in [Language::ArAe, Language::NbNo, Language::UzUz, Language::EnGb] {
        assert_eq!(Language::from(l.to_string()), l);
    }
    assert_eq!(Language::Custom("abc".to_string()).to_string(), "abc");
}

#[test]
fn custom_language_with_known_code_reads_back_as_named() {
    let custom = Language::Custom("de-DE".to_string());
    assert_eq!(Language::from(custom.to_string()), Language::DeDe);
}

#[test]
fn confidence_from_text_ignores_case() {
    assert_eq!(Confidence::from("low"), Confidence::Low);
    assert_eq!(Confidence::from("Normal"), Confidence::Normal);
    assert_eq!(Confidence::from(String::from("HIGH")), Confidence::High);
    assert_eq!(Confidence::from("medium"), Confidence::Unknown);
    assert_eq!(Confidence::default(), Confidence::Unknown);
}

#[test]
fn confidence_from_lowercase_is_exact() {
    assert_eq!(Confidence::from_lowercase("high"), Confidence::High);
    assert_eq!(Confidence::from_lowercase("HIGH"), Confidence::Unknown);
}
