//! What the command line asks for, as plain data, and the text that a
//! transcription ends in.

pub mod transcribe;

use vstd::prelude::*;

verus! {

/// The arguments of a transcription.
#[derive(Debug, PartialEq, Eq)]
pub struct TranscribeArgs {
    /// The audio file.
    pub file_name: String,
    /// The model's name; the default model where there is none.
    pub model: Option<String>,
    /// The language that is spoken; detected where there is none.
    pub language: Option<String>,
    /// The file that the text goes to; standard output where there is none.
    pub outfile: Option<String>,
}

/// The commands of the program.
#[derive(Debug, PartialEq, Eq)]
pub enum Commands {
    Transcribe(TranscribeArgs),
}

} // verus!
