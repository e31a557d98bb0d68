use whisper_rs_cli::audio::converter::{
    check_ffmpeg_available, convert_to_wav, ffmpeg_conversion, ffmpeg_version_query, ProcessOutcome,
};
use whisper_rs_cli::audio::loader::{load_audio, Source};
use whisper_rs_cli::error::WhisperError;

#[test]
fn test_check_ffmpeg_available_mock() {
    let result = check_ffmpeg_available(ProcessOutcome::Exited { success: true });
    match result {
        Ok(_) => println!("FFmpeg is available"),
        Err(WhisperError::FFmpegNotFound) => println!("FFmpeg not found (expected in CI)"),
        Err(e) => panic!("Unexpected error: {:?}", e),
    }
}

#[test]
fn test_check_ffmpeg_not_found_error() {
    let result = check_ffmpeg_available(ProcessOutcome::NotStarted);
    if result.is_err() {
        assert!(matches!(result, Err(WhisperError::FFmpegNotFound)));
    }
}

#[test]
fn the_probe_succeeds_only_on_a_successful_exit() {
    assert_eq!(check_ffmpeg_available(ProcessOutcome::Exited { success: true }), Ok(()));
    assert_eq!(
        check_ffmpeg_available(ProcessOutcome::Exited { success: false }),
        Err(WhisperError::FFmpegNotFound)
    );
    assert_eq!(
        check_ffmpeg_available(ProcessOutcome::NotStarted),
        Err(WhisperError::FFmpegNotFound)
    );
}

#[test]
fn the_version_query_is_ffmpeg_version() {
    let command = ffmpeg_version_query();
    assert_eq!(command.program, "ffmpeg");
    assert_eq!(command.args, vec!["-version".to_string()]);
}

#[test]
fn the_conversion_asks_for_mono_pcm_at_16_khz() {
    let command = ffmpeg_conversion("talk.mp3", "/tmp/x1.wav");
    assert_eq!(command.program, "ffmpeg");
    let expected: Vec<String> = [
        "-i", "talk.mp3", "-acodec", "pcm_s16le", "-ar", "16000", "-ac", "1", "-y", "/tmp/x1.wav",
    ]
    .iter()
    .map(|s| s.to_string())
    .collect();
    assert_eq!(command.args, expected);
}

#[test]
fn a_conversion_runs_probe_then_temp_file_then_transcoder() {
    let probing = convert_to_wav("talk.ogg");
    assert_eq!(probing.command(), ffmpeg_version_query());
    let allocating = probing.finish(ProcessOutcome::Exited { success: true }).unwrap();
    assert_eq!(allocating.suffix(), ".wav");
    let converting = allocating.finish(Ok("/tmp/abc.wav".to_string())).unwrap();
    assert_eq!(converting.command(), ffmpeg_conversion("talk.ogg", "/tmp/abc.wav"));
    let path = converting.finish(ProcessOutcome::Exited { success: true });
    assert_eq!(path, Ok("/tmp/abc.wav".to_string()));
}

#[test]
fn a_failed_probe_ends_the_conversion() {
    let result = convert_to_wav("talk.ogg").finish(ProcessOutcome::Exited { success: false });
    assert!(matches!(result, Err(WhisperError::FFmpegNotFound)));
    let result = convert_to_wav("talk.ogg").finish(ProcessOutcome::NotStarted);
    assert!(matches!(result, Err(WhisperError::FFmpegNotFound)));
}

#[test]
fn a_temp_file_that_cannot_be_created_ends_the_conversion() {
    let allocating =
        convert_to_wav("talk.ogg").finish(ProcessOutcome::Exited { success: true }).unwrap();
    let result = allocating.finish(Err("disk full".to_string()));
    match result {
        Err(WhisperError::IoError(text)) => assert_eq!(text, "disk full"),
        other => panic!("unexpected: {:?}", other),
    }
}

#[test]
fn a_failed_transcoder_ends_the_conversion() {
    for outcome in [ProcessOutcome::NotStarted, ProcessOutcome::Exited { success: false }] {
        let converting = convert_to_wav("talk.ogg")
            .finish(ProcessOutcome::Exited { success: true })
            .unwrap()
            .finish(Ok("/tmp/abc.wav".to_string()))
            .unwrap();
        assert_eq!(converting.finish(outcome), Err(WhisperError::AudioConversionFailed));
    }
}

#[test]
fn an_mp3_without_a_decoder_fails_before_any_temp_file() {
    let source = load_audio("speech.mp3").unwrap();
    let probing = match source {
        Source::Conversion(probing) => probing,
        Source::File(path) => panic!("read directly: {}", path),
    };
    // The stage that asks for the temporary file is never reached.
    let result = probing.finish(ProcessOutcome::NotStarted);
    assert!(matches!(result, Err(WhisperError::FFmpegNotFound)));
}

#[test]
fn a_wav_file_is_read_as_it_is() {
    match load_audio("speech.WAV").unwrap() {
        Source::File(path) => assert_eq!(path, "speech.WAV"),
        Source::Conversion(_) => panic!("converted"),
    }
}

#[test]
fn every_other_container_is_converted_first() {
    for name in ["a.webm", "a.mp3", "a.m4a", "a.mp4", "a.ogg", "a.flac", "a.aac"] {
        match load_audio(name).unwrap() {
            Source::Conversion(probing) => {
                let converting = probing
                    .finish(ProcessOutcome::Exited { success: true })
                    .unwrap()
                    .finish(Ok("out.wav".to_string()))
                    .unwrap();
                assert_eq!(converting.command().args[1], name);
            }
            Source::File(_) => panic!("read directly"),
        }
    }
}

#[test]
fn an_unknown_extension_is_refused() {
    assert!(matches!(load_audio("notes.txt"), Err(WhisperError::UnsupportedFileType)));
    assert!(matches!(load_audio("notes"), Err(WhisperError::UnsupportedFileType)));
}
