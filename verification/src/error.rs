//! The one error type of the crate.

use vstd::prelude::*;
use vstd::string::StringExecFns;

verus! {

/// Why an ingestion, a model lookup or a transcription failed.
///
/// The last four variants carry the text of a failure that was reported from
/// outside this crate.
#[derive(Debug, PartialEq, Eq)]
pub enum WhisperError {
    /// The file's extension names no known container.
    UnsupportedFileType,
    /// The transcoder could not be started, or its version query failed.
    FFmpegNotFound,
    /// The transcoder did not produce the WAV file.
    AudioConversionFailed,
    /// The WAV data is missing, malformed, or in an encoding that is not handled.
    AudioLoadFailed,
    /// The samples could not be brought to the target rate.
    AudioResampleFailed,
    ModelNotFound,
    ModelDownloadFailed,
    ModelLoadFailed,
    TranscriptionFailed,
    IoError(String),
    HttpError(String),
    WhisperError(String),
    Other(String),
}

/// A `Result` whose error is a [`WhisperError`].
pub type Result<T> = core::result::Result<T, WhisperError>;

impl WhisperError {
    /// The text of [`WhisperError::message`].
    pub open spec fn message_text(self) -> Seq<char> {
        match self {
            WhisperError::UnsupportedFileType => "Unsupported file type"@,
            WhisperError::FFmpegNotFound => "FFmpeg not found"@,
            WhisperError::AudioConversionFailed => "Audio conversion failed"@,
            WhisperError::AudioLoadFailed => "Failed to load audio"@,
            WhisperError::AudioResampleFailed => "Failed to resample audio"@,
            WhisperError::ModelNotFound => "Model not found"@,
            WhisperError::ModelDownloadFailed => "Model download failed"@,
            WhisperError::ModelLoadFailed => "Failed to load model"@,
            WhisperError::TranscriptionFailed => "Transcription failed"@,
            WhisperError::IoError(detail) => "IO error: "@ + detail@,
            WhisperError::HttpError(detail) => "HTTP error: "@ + detail@,
            WhisperError::WhisperError(detail) => "Whisper error: "@ + detail@,
            WhisperError::Other(detail) => detail@,
        }
    }

    /// A sentence for the user.
    pub fn message(&self) -> (text: String)
        ensures
            text@ == self.message_text(),
    {
        match self {
            WhisperError::UnsupportedFileType => String::from_str("Unsupported file type"),
            WhisperError::FFmpegNotFound => String::from_str("FFmpeg not found"),
            WhisperError::AudioConversionFailed => String::from_str("Audio conversion failed"),
            WhisperError::AudioLoadFailed => String::from_str("Failed to load audio"),
            WhisperError::AudioResampleFailed => String::from_str("Failed to resample audio"),
            WhisperError::ModelNotFound => String::from_str("Model not found"),
            WhisperError::ModelDownloadFailed => String::from_str("Model download failed"),
            WhisperError::ModelLoadFailed => String::from_str("Failed to load model"),
            WhisperError::TranscriptionFailed => String::from_str("Transcription failed"),
            WhisperError::IoError(detail) => String::from_str("IO error: ").concat(detail.as_str()),
            WhisperError::HttpError(detail) => String::from_str("HTTP error: ").concat(
                detail.as_str(),
            ),
            WhisperError::WhisperError(detail) => String::from_str("Whisper error: ").concat(
                detail.as_str(),
            ),
            WhisperError::Other(detail) => detail.clone(),
        }
    }
}

} // verus!
