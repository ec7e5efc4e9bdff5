use azure_speech::translator::audio::{
    scan_wav_header, AudioBuffer, WavHeaderReader, WavHeaderStep, WavScan, BUFFER_SIZE,
};
use azure_speech::Error;

fn wav_start(data_len: u32) -> Vec<u8> {
    let mut h = Vec::new();
    h.extend_from_slice(b"RIFF");
    h.extend_from_slice(&(36 + data_len).to_le_bytes());
    h.extend_from_slice(b"WAVE");
    h.extend_from_slice(b"fmt ");
    h.extend_from_slice(&16u32.to_le_bytes());
    h.extend_from_slice(&[1, 0, 1, 0]);
    h.extend_from_slice(&16000u32.to_le_bytes());
    h.extend_from_slice(&32000u32.to_le_bytes());
    h.extend_from_slice(&[2, 0, 16, 0]);
    h.extend_from_slice(b"data");
    h.extend_from_slice(&data_len.to_le_bytes());
    h
}

#[test]
fn scan_needs_twelve_bytes() {
    assert_eq!(scan_wav_header(&b"RIFF".to_vec()), WavScan::NeedMore);
}

#[test]
fn scan_rejects_non_wav() {
    assert_eq!(scan_wav_header(&b"RIFX0000WAVEfmt ".to_vec()), WavScan::Invalid);
    assert_eq!(scan_wav_header(&b"RIFF0000WAVXfmt ".to_vec()), WavScan::Invalid);
}

#[test]
fn scan_finds_header_end() {
    let h = wav_start(4);
    assert_eq!(h.len(), 44);
    assert_eq!(scan_wav_header(&h), WavScan::HeaderEnd(44));
    assert_eq!(scan_wav_header(&h[..40].to_vec()), WavScan::NeedMore);
    assert_eq!(scan_wav_header(&h[..30].to_vec()), WavScan::NeedMore);
}

#[test]
fn reader_splits_header_from_audio_across_chunks() {
    let mut all = wav_start(4);
    all.extend_from_slice(&[9, 8, 7, 6]);
    let mut reader = WavHeaderReader::new();
    assert!(matches!(reader.push(all[..10].to_vec()), WavHeaderStep::NeedMore));
    assert!(matches!(reader.push(all[10..42].to_vec()), WavHeaderStep::NeedMore));
    match reader.push(all[42..].to_vec()) {
        WavHeaderStep::Found(header, rest) => {
            assert_eq!(header, all[..44].to_vec());
            assert_eq!(rest, vec![9, 8, 7, 6]);
        }
        other => panic!("unexpected {:?}", other),
    }
}

#[test]
fn chunking_does_not_change_the_header() {
    let mut all = wav_start(2);
    all.extend_from_slice(&[1, 2]);
    let mut one = WavHeaderReader::new();
    let whole = match one.push(all.clone()) {
        WavHeaderStep::Found(h, r) => (h, r),
        other => panic!("unexpected {:?}", other),
    };
    let mut byte_by_byte = WavHeaderReader::new();
    let mut found = None;
    for b in &all {
        if let WavHeaderStep::Found(h, r) = byte_by_byte.push(vec![*b]) {
            found = Some((h, r));
            break;
        }
    }
    let (h, mut r) = found.unwrap();
    assert_eq!(h, whole.0);
    r.extend_from_slice(&all[h.len() + r.len()..]);
    assert_eq!(r, whole.1);
}

#[test]
fn reader_reports_invalid_header() {
    let mut reader = WavHeaderReader::new();
    match reader.push(b"OggS0000000000000".to_vec()) {
        WavHeaderStep::Failed(e) => assert_eq!(e, Error::ParseError("Invalid wav header".to_string())),
        other => panic!("unexpected {:?}", other),
    }
}

#[test]
fn reader_reports_stream_end() {
    let reader = WavHeaderReader::new();
    assert_eq!(
        reader.finish(),
        Error::ParseError("Reached end of stream without finding 'data' chunk".to_string())
    );
}

#[test]
fn buffer_sends_full_chunks_while_streaming() {
    let mut b = AudioBuffer::new(vec![0u8; 10]);
    assert_eq!(b.next_full_chunk(), None);
    b.extend((0..BUFFER_SIZE as u32 * 2).map(|i| (i % 251) as u8).collect());
    let c1 = b.next_full_chunk().unwrap();
    assert_eq!(c1.len(), BUFFER_SIZE);
    assert_eq!(&c1[..10], &[0u8; 10]);
    let c2 = b.next_full_chunk().unwrap();
    assert_eq!(c2.len(), BUFFER_SIZE);
    assert_eq!(b.next_full_chunk(), None);
    let last = b.next_final_chunk().unwrap();
    assert_eq!(last.len(), 10);
    assert_eq!(b.next_final_chunk(), None);
}

#[test]
fn buffer_final_chunks_keep_every_byte_in_order() {
    let data: Vec<u8> = (0..(BUFFER_SIZE * 2 + 100) as u32).map(|i| (i % 253) as u8).collect();
    let mut b = AudioBuffer::new(data.clone());
    let mut out = Vec::new();
    let mut sizes = Vec::new();
    while let Some(c) = b.next_final_chunk() {
        sizes.push(c.len());
        out.extend(c);
    }
    assert_eq!(out, data);
    assert_eq!(sizes, vec![BUFFER_SIZE, BUFFER_SIZE, 100]);
}
