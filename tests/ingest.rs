use whisper_transcribe::ingest::{
    conclude, conversion_error, decode_output, decoder_args, finish_ingest, output_name, resolve_filter,
    temp_output_name, ConversionStatus, DecodedOutput, IngestError, DEFAULT_FILTER,
};

fn wav_bytes(samples: &[i16]) -> Vec<u8> {
    let data_len = (samples.len() * 2) as u32;
    let mut b = Vec::new();
    b.extend_from_slice(b"RIFF");
    b.extend_from_slice(&(36 + data_len).to_le_bytes());
    b.extend_from_slice(b"WAVE");
    b.extend_from_slice(b"fmt ");
    b.extend_from_slice(&16u32.to_le_bytes());
    b.extend_from_slice(&1u16.to_le_bytes());
    b.extend_from_slice(&1u16.to_le_bytes());
    b.extend_from_slice(&16000u32.to_le_bytes());
    b.extend_from_slice(&32000u32.to_le_bytes());
    b.extend_from_slice(&2u16.to_le_bytes());
    b.extend_from_slice(&16u16.to_le_bytes());
    b.extend_from_slice(b"data");
    b.extend_from_slice(&data_len.to_le_bytes());
    for s in samples {
        b.extend_from_slice(&s.to_le_bytes());
    }
    b
}

const OK: ConversionStatus = ConversionStatus::Exited { success: true };

#[test]
fn decoder_failure_is_conversion_failed() {
    let status = ConversionStatus::Exited { success: false };
    assert_eq!(conversion_error(status), Some(IngestError::ConversionFailed));
    let r = finish_ingest(status, Some(wav_bytes(&[1, 2])), true);
    assert_eq!(r, Err(IngestError::ConversionFailed));
    assert_eq!(finish_ingest(status, None, false), Err(IngestError::ConversionFailed));
}

#[test]
fn empty_output_is_decode_failed() {
    assert_eq!(finish_ingest(OK, Some(vec![]), true), Err(IngestError::DecodeFailed));
    assert!(matches!(decode_output(Some(vec![])), DecodedOutput::Malformed));
}

#[test]
fn corrupt_output_is_decode_failed() {
    let junk = b"this is not audio at all, just some text bytes".to_vec();
    assert_eq!(finish_ingest(OK, Some(junk), true), Err(IngestError::DecodeFailed));
}

#[test]
fn valid_output_gives_its_samples() {
    let samples = [0i16, 1, -1, i16::MAX, i16::MIN, 1234];
    let r = finish_ingest(OK, Some(wav_bytes(&samples)), true);
    assert_eq!(r, Ok(samples.to_vec()));
    match decode_output(Some(wav_bytes(&samples))) {
        DecodedOutput::Samples(v) => assert_eq!(v, samples.to_vec()),
        _ => panic!("expected samples"),
    }
}

#[test]
fn other_failures() {
    assert_eq!(finish_ingest(ConversionStatus::ToolMissing, None, true), Err(IngestError::ToolUnavailable));
    assert_eq!(finish_ingest(ConversionStatus::SpawnFailed, None, true), Err(IngestError::IoFailure));
    assert_eq!(finish_ingest(OK, None, true), Err(IngestError::DecodeFailed));
    assert_eq!(finish_ingest(OK, Some(wav_bytes(&[3])), false), Err(IngestError::IoFailure));
}

#[test]
fn conclude_on_each_outcome() {
    assert_eq!(conclude(OK, DecodedOutput::Samples(vec![5, -5]), true), Ok(vec![5, -5]));
    assert_eq!(conclude(OK, DecodedOutput::Malformed, true), Err(IngestError::DecodeFailed));
    assert_eq!(conclude(OK, DecodedOutput::Unreadable, true), Err(IngestError::DecodeFailed));
    assert_eq!(conclude(OK, DecodedOutput::Samples(vec![1]), false), Err(IngestError::IoFailure));
    assert_eq!(
        conclude(ConversionStatus::Exited { success: false }, DecodedOutput::Samples(vec![1]), true),
        Err(IngestError::ConversionFailed)
    );
}

#[test]
fn temp_names_do_not_collide() {
    let names: std::collections::HashSet<String> = (0..1000).map(|_| temp_output_name()).collect();
    assert_eq!(names.len(), 1000);
    let n = temp_output_name();
    assert_eq!(n.len(), 40);
    assert!(n.ends_with(".wav"));
    for i in [8, 13, 18, 23] {
        assert_eq!(n.as_bytes()[i], b'-');
    }
}

#[test]
fn output_name_appends_extension() {
    assert_eq!(output_name("abc"), "abc.wav");
    assert_eq!(output_name(""), ".wav");
}

#[test]
fn filter_defaults_to_downmix() {
    assert_eq!(resolve_filter(None), "pan=mono|c0=0.5*c0+0.5*c1");
    assert_eq!(resolve_filter(None), DEFAULT_FILTER);
    assert_eq!(resolve_filter(Some("volume=2".to_string())), "volume=2");
}

#[test]
fn decoder_arguments() {
    let args = decoder_args(Some("in.mp3".to_string()), None, "/tmp/out.wav").unwrap();
    let expected = [
        "-i", "in.mp3", "-ar", "16000", "-ac", "1", "-af", "pan=mono|c0=0.5*c0+0.5*c1", "-c:a",
        "pcm_s16le", "/tmp/out.wav", "-hide_banner", "-y", "-loglevel", "error",
    ];
    assert_eq!(args, expected.iter().map(|s| s.to_string()).collect::<Vec<_>>());
    let custom = decoder_args(Some("a.ogg".to_string()), Some("volume=2".to_string()), "o.wav").unwrap();
    assert_eq!(custom[7], "volume=2");
    assert_eq!(decoder_args(None, None, "o.wav"), Err(IngestError::InvalidPath));
}
