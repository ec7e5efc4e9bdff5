use azure_speech::translator::audio::BUFFER_SIZE;
use azure_speech::translator::translation::{AudioAction, AudioInput, AudioSession, Outgoing};
use azure_speech::translator::{AudioDevice, Config, SourceType};

fn session(id: &str, wav: bool) -> AudioSession {
    AudioSession::new(id.to_string(), wav, Config::new("it-IT".to_string(), "en-US".to_string()), AudioDevice::new(SourceType::File))
}
use azure_speech::Error;

fn wav_start(data_len: u32) -> Vec<u8> {
    let mut h = Vec::new();
    h.extend_from_slice(b"RIFF");
    h.extend_from_slice(&(36 + data_len).to_le_bytes());
    h.extend_from_slice(b"WAVE");
    h.extend_from_slice(b"fmt ");
    h.extend_from_slice(&16u32.to_le_bytes());
    h.extend_from_slice(&[1, 0, 1, 0]);
    h.extend_from_slice(&16000u32.to_le_bytes());
    h.extend_from_slice(&32000u32.to_le_bytes());
    h.extend_from_slice(&[2, 0, 16, 0]);
    h.extend_from_slice(b"data");
    h.extend_from_slice(&data_len.to_le_bytes());
    h
}

fn sent(s: &mut AudioSession) -> AudioAction {
    s.step(AudioInput::Sent(None))
}

#[test]
fn opening_order_for_raw_audio() {
    let mut s = session("r1", false);
    match s.step(AudioInput::Start) {
        AudioAction::Send(Outgoing::SpeechConfig { request_id, config, device }) => {
            assert_eq!(request_id, "r1");
            assert_eq!(config.recognition_language, "it-IT");
            assert_eq!(config.target_languages, vec!["en-US".to_string()]);
            assert_eq!(device.source, SourceType::File);
        }
        other => panic!("unexpected {:?}", other),
    }
    match sent(&mut s) {
        AudioAction::Send(Outgoing::SpeechContext { request_id, config }) => {
            assert_eq!(request_id, "r1");
            assert_eq!(config.recognition_language, "it-IT");
        }
        other => panic!("unexpected {:?}", other),
    }
    assert!(matches!(sent(&mut s), AudioAction::Send(Outgoing::AudioHeader { ref request_id, header: None }) if request_id == "r1"));
    assert!(matches!(sent(&mut s), AudioAction::Wait));
}

#[test]
fn opening_reads_the_wav_header_first() {
    let mut s = session("r1", true);
    s.step(AudioInput::Start);
    sent(&mut s);
    assert!(matches!(sent(&mut s), AudioAction::ReadAudio));
    let mut all = wav_start(2);
    all.extend_from_slice(&[5, 6]);
    assert!(matches!(s.step(AudioInput::Audio(Some(all[..20].to_vec()))), AudioAction::ReadAudio));
    match s.step(AudioInput::Audio(Some(all[20..].to_vec()))) {
        AudioAction::Send(Outgoing::AudioHeader { request_id, header: Some(h) }) => {
            assert_eq!(request_id, "r1");
            assert_eq!(h, all[..44].to_vec());
        }
        other => panic!("unexpected {:?}", other),
    }
    assert!(matches!(sent(&mut s), AudioAction::Wait));
    // The bytes after the header are sent once the audio ends.
    match s.step(AudioInput::Audio(None)) {
        AudioAction::Send(Outgoing::Audio { chunk, .. }) => assert_eq!(chunk, vec![5, 6]),
        other => panic!("unexpected {:?}", other),
    }
    assert!(matches!(sent(&mut s), AudioAction::Send(Outgoing::AudioEnd { .. })));
    assert!(matches!(sent(&mut s), AudioAction::Complete));
}

#[test]
fn opening_failures() {
    let mut s = session("r", false);
    s.step(AudioInput::Start);
    assert!(matches!(s.step(AudioInput::Sent(Some(Error::Forbidden))), AudioAction::Fail(Error::Forbidden)));

    let mut s = session("r", true);
    s.step(AudioInput::Start);
    sent(&mut s);
    sent(&mut s);
    match s.step(AudioInput::Audio(Some(b"OggS0000000000000".to_vec()))) {
        AudioAction::Fail(e) => assert_eq!(e, Error::ParseError("Invalid wav header".to_string())),
        other => panic!("unexpected {:?}", other),
    }

    let mut s = session("r", true);
    s.step(AudioInput::Start);
    sent(&mut s);
    sent(&mut s);
    match s.step(AudioInput::Audio(None)) {
        AudioAction::Fail(e) => assert_eq!(
            e,
            Error::ParseError("Reached end of stream without finding 'data' chunk".to_string())
        ),
        other => panic!("unexpected {:?}", other),
    }
}

fn open_raw(id: &str) -> AudioSession {
    let mut s = session(id, false);
    s.step(AudioInput::Start);
    sent(&mut s);
    sent(&mut s);
    assert!(matches!(sent(&mut s), AudioAction::Wait));
    s
}

#[test]
fn streaming_sends_full_chunks_and_restarts() {
    let mut s = open_raw("r1");
    assert!(matches!(s.step(AudioInput::Audio(Some(vec![1; 100]))), AudioAction::Wait));
    match s.step(AudioInput::Audio(Some(vec![2; BUFFER_SIZE * 2]))) {
        AudioAction::Send(Outgoing::Audio { request_id, chunk }) => {
            assert_eq!(request_id, "r1");
            assert_eq!(chunk.len(), BUFFER_SIZE);
            assert_eq!(&chunk[..100], &[1u8; 100][..]);
        }
        other => panic!("unexpected {:?}", other),
    }
    assert!(matches!(sent(&mut s), AudioAction::Send(Outgoing::Audio { .. })));
    assert!(matches!(sent(&mut s), AudioAction::Wait));
    match s.step(AudioInput::Restart("r2".to_string())) {
        AudioAction::Send(Outgoing::AudioHeader { request_id, header: None }) => assert_eq!(request_id, "r2"),
        other => panic!("unexpected {:?}", other),
    }
    assert!(matches!(sent(&mut s), AudioAction::Wait));
    match s.step(AudioInput::Audio(None)) {
        AudioAction::Send(Outgoing::Audio { request_id, chunk }) => {
            assert_eq!(request_id, "r2");
            assert_eq!(chunk.len(), 100);
        }
        other => panic!("unexpected {:?}", other),
    }
    assert!(matches!(s.step(AudioInput::Sent(Some(Error::BadRequest))), AudioAction::Send(Outgoing::AudioEnd { .. })));
    assert!(matches!(s.step(AudioInput::Sent(Some(Error::BadRequest))), AudioAction::Complete));
    assert!(matches!(s.step(AudioInput::Start), AudioAction::Ignored));
}

#[test]
fn failed_chunk_is_dropped_and_restart_failure_stops() {
    let mut s = open_raw("r");
    assert!(matches!(s.step(AudioInput::Audio(Some(vec![3; BUFFER_SIZE * 2]))), AudioAction::Send(Outgoing::Audio { .. })));
    assert!(matches!(s.step(AudioInput::Sent(Some(Error::Forbidden))), AudioAction::Wait));
    match s.step(AudioInput::Audio(Some(vec![]))) {
        AudioAction::Send(Outgoing::Audio { chunk, .. }) => assert_eq!(chunk.len(), BUFFER_SIZE),
        other => panic!("unexpected {:?}", other),
    }
    assert!(matches!(sent(&mut s), AudioAction::Wait));
    assert!(matches!(s.step(AudioInput::Restart("n".to_string())), AudioAction::Send(Outgoing::AudioHeader { .. })));
    assert!(matches!(s.step(AudioInput::Sent(Some(Error::Forbidden))), AudioAction::Stop));
}
