use whisper_rs_cli::error::{Result, WhisperError};

#[test]
fn test_error_display() {
    assert_eq!(WhisperError::UnsupportedFileType.message(), "Unsupported file type");
    assert_eq!(WhisperError::FFmpegNotFound.message(), "FFmpeg not found");
    assert_eq!(WhisperError::AudioConversionFailed.message(), "Audio conversion failed");
    assert_eq!(WhisperError::AudioLoadFailed.message(), "Failed to load audio");
    assert_eq!(WhisperError::ModelNotFound.message(), "Model not found");
    assert_eq!(WhisperError::ModelDownloadFailed.message(), "Model download failed");
    assert_eq!(WhisperError::ModelLoadFailed.message(), "Failed to load model");
    assert_eq!(WhisperError::TranscriptionFailed.message(), "Transcription failed");
}

#[test]
fn test_result_type() {
    let ok_result: Result<()> = Ok(());
    assert!(ok_result.is_ok());

    let err_result: Result<()> = Err(WhisperError::UnsupportedFileType);
    assert!(err_result.is_err());
}

#[test]
fn a_failed_resampling_has_its_own_message() {
    assert_eq!(WhisperError::AudioResampleFailed.message(), "Failed to resample audio");
}

#[test]
fn errors_from_outside_show_their_text() {
    let io = WhisperError::IoError("file not found".to_string());
    assert_eq!(io.message(), "IO error: file not found");
    assert!(io.message().contains("IO error"));
    let http = WhisperError::HttpError("timed out".to_string());
    assert_eq!(http.message(), "HTTP error: timed out");
    let whisper = WhisperError::WhisperError("invalid model".to_string());
    assert_eq!(whisper.message(), "Whisper error: invalid model");
    let other = WhisperError::Other("test error".to_string());
    assert_eq!(other.message(), "test error");
    assert_eq!(WhisperError::Other(String::new()).message(), "");
}

#[test]
fn test_io_error_conversion() {
    let io_err = std::io::Error::new(std::io::ErrorKind::NotFound, "file not found");
    let whisper_err = WhisperError::IoError(io_err.to_string());
    assert!(matches!(whisper_err, WhisperError::IoError(_)));
    assert!(whisper_err.message().contains("IO error"));
}

#[test]
fn test_anyhow_error_conversion() {
    let anyhow_err = anyhow::Error::msg("test error");
    let whisper_err = WhisperError::Other(anyhow_err.to_string());
    assert!(matches!(whisper_err, WhisperError::Other(_)));
}
