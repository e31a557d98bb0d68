//! Audio ingestion for speech recognition: from a file of any known container
//! to one channel of samples at 16 kHz.
//!
//! The crate decides and computes; it does not act. It starts no process and
//! opens no file: where the transcoder has to run or a file has to be read, it
//! says so and takes the outcome as an argument. It computes in integers only:
//! samples are exact fixed-point numbers, and what needs floating point (float
//! samples, the resampling filter) is planned here and carried out by the
//! caller.
//!
//! Every function states what it returns and is proved to return it. Three
//! calls are taken on trust, each behind a private function that says so:
//! two into `hound`, which parses the WAV container, and one into
//! `char::is_whitespace`.

pub mod audio;
pub mod cli;
pub mod error;
pub mod model;
pub mod output;
pub mod text;

pub use error::{Result, WhisperError};
pub use output::logger::{is_silent, set_silent};
