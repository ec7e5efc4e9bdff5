use azure_speech::recognizer::{RecognitionStatus, SpeechEndDetected, SpeechStartDetected};
use azure_speech::translator::client::{
    classify_path, event_from_decoded, route_message, BodyKind, Decoded, MessageKind, Routing,
};
use azure_speech::translator::translation::{EventStream, MessageStep};
use azure_speech::translator::messages::{
    AudioEnd, AudioStart, SynthesisStatus, Translation, TranslationHypothesis, TranslationItem,
    TranslationPhrase, TranslationStatus,
};
use azure_speech::translator::Event;
use azure_speech::{Data, Error, Message};

fn message(path: &str, data: Data) -> Message {
    Message { id: "req".to_string(), path: path.to_string(), headers: vec![], data }
}

fn text(s: &str) -> Data {
    Data::Text(Some(s.to_string()))
}

fn wav_bytes(samples: &[i16]) -> Vec<u8> {
    let spec = hound::WavSpec {
        channels: 1,
        sample_rate: 16000,
        bits_per_sample: 16,
        sample_format: hound::SampleFormat::Int,
    };
    let mut cursor = std::io::Cursor::new(Vec::new());
    {
        let mut writer = hound::WavWriter::new(&mut cursor, spec).unwrap();
        for s in samples {
            writer.write_sample(*s).unwrap();
        }
        writer.finalize().unwrap();
    }
    cursor.into_inner()
}

fn translation() -> Translation {
    Translation {
        translation_status: TranslationStatus::Success,
        translations: vec![TranslationItem { text: "ciao".to_string() }],
    }
}

fn phrase(status: RecognitionStatus, text: Option<&str>) -> TranslationPhrase {
    TranslationPhrase {
        text: text.map(|t| t.to_string()),
        offset: 100,
        duration: 20,
        recognition_status: status,
        translation: translation(),
    }
}

#[test]
fn paths_are_classified() {
    assert_eq!(classify_path("turn.start"), MessageKind::TurnStart);
    assert_eq!(classify_path("turn.end"), MessageKind::TurnEnd);
    assert_eq!(classify_path("speech.startdetected"), MessageKind::Body(BodyKind::SpeechStartDetected));
    assert_eq!(classify_path("speech.enddetected"), MessageKind::Body(BodyKind::SpeechEndDetected));
    assert_eq!(classify_path("translation.hypothesis"), MessageKind::Body(BodyKind::TranslationHypothesis));
    assert_eq!(classify_path("translation.phrase"), MessageKind::Body(BodyKind::TranslationPhrase));
    assert_eq!(classify_path("audio.start"), MessageKind::Body(BodyKind::AudioStart));
    assert_eq!(classify_path("audio.end"), MessageKind::Body(BodyKind::AudioEnd));
    assert_eq!(classify_path("translation.synthesis"), MessageKind::Synthesis);
    assert_eq!(classify_path("speech.hypothesis"), MessageKind::Other);
}

#[test]
fn turns_become_session_events() {
    let id = "abc".to_string();
    assert_eq!(
        route_message(message("turn.start", Data::Text(None)), &id),
        Routing::Done(Some(Ok(Event::SessionStarted("abc".to_string()))))
    );
    assert_eq!(
        route_message(message("turn.end", Data::Binary(None)), &id),
        Routing::Done(Some(Ok(Event::SessionEnded("abc".to_string()))))
    );
}

#[test]
fn json_bodies_are_handed_out_to_decode() {
    let id = "abc".to_string();
    assert_eq!(
        route_message(message("translation.phrase", text("{}")), &id),
        Routing::Decode(BodyKind::TranslationPhrase, "{}".to_string())
    );
    assert_eq!(route_message(message("translation.phrase", Data::Text(None)), &id), Routing::Done(None));
    assert_eq!(
        route_message(message("speech.startdetected", Data::Binary(Some(vec![1]))), &id),
        Routing::Done(None)
    );
    assert_eq!(route_message(message("unknown.path", text("{}")), &id), Routing::Done(None));
}

#[test]
fn synthesis_audio_is_decoded() {
    let id = "abc".to_string();
    let audio = wav_bytes(&[1, -2, 300]);
    assert_eq!(
        route_message(message("translation.synthesis", Data::Binary(Some(audio))), &id),
        Routing::Done(Some(Ok(Event::TranslationSynthesis("abc".to_string(), vec![1, -2, 300]))))
    );
    assert_eq!(
        route_message(message("translation.synthesis", Data::Binary(Some(vec![0, 1, 2]))), &id),
        Routing::Done(None)
    );
    assert_eq!(
        route_message(message("translation.synthesis", Data::Binary(None)), &id),
        Routing::Done(None)
    );
    assert_eq!(route_message(message("translation.synthesis", text("x")), &id), Routing::Done(None));
}

#[test]
fn speech_start_and_end() {
    let r = event_from_decoded(
        Decoded::SpeechStartDetected(Some(SpeechStartDetected { offset: 7 })),
        "{}".to_string(),
        "id".to_string(),
        1000,
    );
    assert_eq!(r.event, Some(Ok(Event::StartDetected("id".to_string(), 7))));
    assert_eq!(r.hypothesis_offset, None);
    let r = event_from_decoded(Decoded::SpeechStartDetected(None), "x".to_string(), "id".to_string(), 0);
    assert_eq!(r.event, None);
    let r = event_from_decoded(Decoded::SpeechEndDetected(None), "x".to_string(), "id".to_string(), 0);
    assert_eq!(r.event, Some(Ok(Event::EndDetected("id".to_string(), 0))));
    let r = event_from_decoded(
        Decoded::SpeechEndDetected(Some(SpeechEndDetected { offset: 9 })),
        "x".to_string(),
        "id".to_string(),
        0,
    );
    assert_eq!(r.event, Some(Ok(Event::EndDetected("id".to_string(), 9))));
}

#[test]
fn hypothesis_offset_adds_the_audio_offset() {
    let h = TranslationHypothesis { text: "hola".to_string(), offset: 5, duration: 3, translation: translation() };
    let r = event_from_decoded(Decoded::TranslationHypothesis(Ok(h)), "raw".to_string(), "id".to_string(), 40);
    assert_eq!(
        r.event,
        Some(Ok(Event::Translating("id".to_string(), "hola".to_string(), 45, 3, "raw".to_string())))
    );
    assert_eq!(r.hypothesis_offset, Some(45));
    let r = event_from_decoded(
        Decoded::TranslationHypothesis(Err("bad json".to_string())),
        "raw".to_string(),
        "id".to_string(),
        40,
    );
    assert_eq!(r.event, Some(Err(Error::ParseError("bad json".to_string()))));
    assert_eq!(r.hypothesis_offset, None);
}

#[test]
fn phrase_statuses() {
    let ev = |p| event_from_decoded(Decoded::TranslationPhrase(p), "raw".to_string(), "id".to_string(), 0).event;
    assert_eq!(
        ev(Ok(phrase(RecognitionStatus::Success, Some("hi")))),
        Some(Ok(Event::Translated("id".to_string(), "hi".to_string(), 100, 20, "raw".to_string())))
    );
    assert_eq!(
        ev(Ok(phrase(RecognitionStatus::Success, None))),
        Some(Ok(Event::Translated("id".to_string(), String::new(), 100, 20, "raw".to_string())))
    );
    assert_eq!(
        ev(Ok(phrase(RecognitionStatus::NoMatch, None))),
        Some(Ok(Event::NoMatch("id".to_string(), 100, 20, "raw".to_string())))
    );
    assert_eq!(ev(Ok(phrase(RecognitionStatus::EndOfDictation, None))), None);
    assert_eq!(ev(Ok(phrase(RecognitionStatus::InitialSilenceTimeout, None))), None);
    assert_eq!(ev(Ok(phrase(RecognitionStatus::BabbleTimeout, None))), None);
    assert_eq!(ev(Ok(phrase(RecognitionStatus::Error, None))), Some(Err(Error::RecognitionError)));
    assert_eq!(ev(Ok(phrase(RecognitionStatus::TooManyRequests, None))), Some(Err(Error::TooManyRequests)));
    assert_eq!(ev(Ok(phrase(RecognitionStatus::BadRequest, None))), Some(Err(Error::BadRequest)));
    assert_eq!(ev(Ok(phrase(RecognitionStatus::Forbidden, None))), Some(Err(Error::Forbidden)));
    assert_eq!(ev(Err("oops".to_string())), Some(Err(Error::ParseError("oops".to_string()))));
}

#[test]
fn audio_start_and_end_give_no_event() {
    let start = AudioStart { translation_language: "it".to_string() };
    let r = event_from_decoded(Decoded::AudioStart(Ok(start)), "raw".to_string(), "id".to_string(), 0);
    assert_eq!(r.event, None);
    let end = AudioEnd { status: SynthesisStatus::Success };
    let r = event_from_decoded(Decoded::AudioEnd(Ok(end)), "raw".to_string(), "id".to_string(), 0);
    assert_eq!(r.event, None);
    let r = event_from_decoded(Decoded::AudioEnd(Err("e".to_string())), "raw".to_string(), "id".to_string(), 0);
    assert_eq!(r.event, Some(Err(Error::ParseError("e".to_string()))));
    let r = event_from_decoded(Decoded::AudioStart(Err("s".to_string())), "raw".to_string(), "id".to_string(), 0);
    assert_eq!(r.event, Some(Err(Error::ParseError("s".to_string()))));
}

#[test]
fn event_stream_filters_and_stops_after_error() {
    let mut stream = EventStream::new();
    let mine: Result<Message, Error> = Ok(message("turn.start", Data::Text(None)));
    match stream.on_message(mine, &"req".to_string()) {
        MessageStep::Route(r) => {
            assert_eq!(r, Routing::Done(Some(Ok(Event::SessionStarted("req".to_string())))))
        }
        other => panic!("unexpected {:?}", other),
    }
    let other: Result<Message, Error> = Ok(message("turn.start", Data::Text(None)));
    assert!(matches!(stream.on_message(other, &"another".to_string()), MessageStep::Skip));
    assert!(matches!(
        stream.on_message(Err(Error::BadRequest), &"req".to_string()),
        MessageStep::Fail(Error::BadRequest)
    ));

    let d = stream.deliver(Ok(Event::SessionStarted("req".to_string()))).unwrap();
    assert!(!d.restart);
    let d = stream.deliver(Ok(Event::SessionEnded("req".to_string()))).unwrap();
    assert!(d.restart);
    assert_eq!(d.event, Ok(Event::SessionEnded("req".to_string())));
    assert!(!stream.ended());
    let d = stream.deliver(Err(Error::Forbidden)).unwrap();
    assert_eq!(d.event, Err(Error::Forbidden));
    assert!(stream.ended());
    assert!(stream.deliver(Ok(Event::SessionStarted("req".to_string()))).is_none());
    let late: Result<Message, Error> = Ok(message("turn.start", Data::Text(None)));
    assert!(matches!(stream.on_message(late, &"req".to_string()), MessageStep::Skip));
}

#[test]
fn events_carry_the_session_id_not_the_message_id() {
    let mut m = message("turn.end", Data::Text(None));
    m.id = "from-message".to_string();
    m.headers = vec![("X-RequestId".to_string(), "from-header".to_string())];
    assert_eq!(
        route_message(m, &"session".to_string()),
        Routing::Done(Some(Ok(Event::SessionEnded("session".to_string()))))
    );
}

#[test]
fn recognition_status_errors() {
    assert_eq!(RecognitionStatus::Success.error(), None);
    assert_eq!(RecognitionStatus::Forbidden.error(), Some(Error::Forbidden));
}
