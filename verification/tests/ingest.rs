use hound::{WavSpec, WavWriter};
use std::io::Cursor;
use whisper_rs_cli::audio::converter::ProcessOutcome;
use whisper_rs_cli::audio::loader::{ingest, Answers, AudioData, Decoded};
use whisper_rs_cli::error::WhisperError;

const DONE: ProcessOutcome = ProcessOutcome::Exited { success: true };
const FAILED: ProcessOutcome = ProcessOutcome::Exited { success: false };

/// The answers of a world in which everything works and the WAV file holds `contents`.
fn all_well(contents: Option<&[u8]>) -> Answers {
    Answers {
        probe: DONE,
        temp_file: Ok("/tmp/.tmpAbCdEf.wav".to_string()),
        transcoding: DONE,
        contents: contents.map(|bytes| bytes.to_vec()),
    }
}

/// The bytes of a 16-bit mono WAV file at 16 kHz.
fn wav(samples: &[i16]) -> Vec<u8> {
    let spec = WavSpec {
        channels: 1,
        sample_rate: 16000,
        bits_per_sample: 16,
        sample_format: hound::SampleFormat::Int,
    };
    let mut cursor = Cursor::new(Vec::new());
    let mut writer = WavWriter::new(&mut cursor, spec).unwrap();
    for sample in samples {
        writer.write_sample::<i16>(*sample).unwrap();
    }
    writer.finalize().unwrap();
    cursor.into_inner()
}

#[test]
fn test_unsupported_format_txt() {
    let result = ingest("/tmp/.tmpAbCdEf.txt", all_well(Some(b"not an audio file")));
    assert!(result.is_err());
    assert_eq!(result, Err(WhisperError::UnsupportedFileType));
}

#[test]
fn test_unsupported_format_pdf() {
    let result = ingest("/tmp/.tmpAbCdEf.pdf", all_well(Some(b"not an audio file")));
    assert!(result.is_err());
    assert_eq!(result, Err(WhisperError::UnsupportedFileType));
}

#[test]
fn test_file_not_found() {
    let result = ingest("/nonexistent/file.wav", all_well(None));
    assert!(result.is_err());
    assert_eq!(result, Err(WhisperError::AudioLoadFailed));
}

#[test]
fn test_empty_file() {
    let result = ingest("/tmp/.tmpAbCdEf.wav", all_well(Some(b"")));
    assert!(result.is_err());
    assert_eq!(result, Err(WhisperError::AudioLoadFailed));
}

#[test]
fn test_wav_file_extension() {
    let bytes = wav(&[0, 100, -100]);
    let result = ingest("/tmp/.tmpAbCdEf.wav", all_well(Some(&bytes)));
    let expected = Decoded::Ready(AudioData { samples: vec![0, 200, -200], sample_rate: 16000 });
    assert_eq!(result, Ok(expected));
}

#[test]
fn a_wav_file_does_not_need_the_transcoder() {
    let bytes = wav(&[7]);
    let answers = Answers {
        probe: ProcessOutcome::NotStarted,
        temp_file: Err("no space left".to_string()),
        transcoding: ProcessOutcome::NotStarted,
        contents: Some(bytes),
    };
    let expected = Decoded::Ready(AudioData { samples: vec![14], sample_rate: 16000 });
    assert_eq!(ingest("talk.wave", answers), Ok(expected));
}

#[test]
fn a_converted_file_is_decoded_like_any_wav_file() {
    let bytes = wav(&[1, 2, 3]);
    let expected = Decoded::Ready(AudioData { samples: vec![2, 4, 6], sample_rate: 16000 });
    assert_eq!(ingest("talk.mp3", all_well(Some(&bytes))), Ok(expected));
}

#[test]
fn the_first_failure_is_the_result() {
    let bytes = wav(&[1, 2, 3]);
    let everything_fails = || Answers {
        probe: FAILED,
        temp_file: Err("no space left".to_string()),
        transcoding: FAILED,
        contents: None,
    };

    assert_eq!(ingest("talk.flac", everything_fails()), Err(WhisperError::FFmpegNotFound));

    let answers = Answers { probe: DONE, ..everything_fails() };
    assert_eq!(
        ingest("talk.flac", answers),
        Err(WhisperError::IoError("no space left".to_string()))
    );

    let answers = Answers { probe: DONE, temp_file: Ok("t.wav".to_string()), ..everything_fails() };
    assert_eq!(ingest("talk.flac", answers), Err(WhisperError::AudioConversionFailed));

    let answers = Answers { contents: None, ..all_well(None) };
    assert_eq!(ingest("talk.flac", answers), Err(WhisperError::AudioLoadFailed));

    let answers = Answers { probe: ProcessOutcome::NotStarted, ..all_well(Some(&bytes)) };
    assert_eq!(ingest("talk.flac", answers), Err(WhisperError::FFmpegNotFound));

    let answers = Answers { transcoding: ProcessOutcome::NotStarted, ..all_well(Some(&bytes)) };
    assert_eq!(ingest("talk.flac", answers), Err(WhisperError::AudioConversionFailed));
}
