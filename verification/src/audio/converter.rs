//! Transcoding to WAV by `ffmpeg`: which commands to run, in which order, and
//! what their outcomes mean.
//!
//! Nothing here starts a process or touches a file. A conversion is a chain of
//! stages; each stage says what the caller has to do, and its `finish` takes
//! what came of it and gives the next stage or the error that ends the chain:
//!
//! [`convert_to_wav`], [`Probing`], [`Allocating`], [`Converting`], and at last the path of
//! the WAV file.

use crate::error::WhisperError;
use crate::text::texts;
use vstd::prelude::*;
use vstd::string::StringExecFns;

verus! {

/// How an attempt to run a program ended.
#[derive(Debug, Clone, Copy, PartialEq, Eq, Structural)]
pub enum ProcessOutcome {
    /// The program could not be started.
    NotStarted,
    /// The program ran and exited, with or without a success status.
    Exited { success: bool },
}

impl ProcessOutcome {
    /// The program ran and reported success.
    pub open spec fn succeeded(self) -> bool {
        self == (ProcessOutcome::Exited { success: true })
    }
}

/// A program to run, with its arguments. Its output is of no interest.
#[derive(Debug, PartialEq, Eq)]
pub struct Invocation {
    pub program: String,
    pub args: Vec<String>,
}

/// The mathematical value of an [`Invocation`].
pub struct InvocationView {
    pub program: Seq<char>,
    pub args: Seq<Seq<char>>,
}

impl View for Invocation {
    type V = InvocationView;

    open spec fn view(&self) -> InvocationView {
        InvocationView { program: self.program@, args: texts(self.args@) }
    }
}

/// The command that asks the transcoder for its version.
pub open spec fn version_query() -> InvocationView {
    InvocationView { program: "ffmpeg"@, args: seq!["-version"@] }
}

/// The command that transcodes `input` into `output`: signed 16-bit
/// little-endian PCM, 16000 Hz, one channel, overwriting what is there.
pub open spec fn conversion(input: Seq<char>, output: Seq<char>) -> InvocationView {
    InvocationView {
        program: "ffmpeg"@,
        args: seq![
            "-i"@,
            input,
            "-acodec"@,
            "pcm_s16le"@,
            "-ar"@,
            "16000"@,
            "-ac"@,
            "1"@,
            "-y"@,
            output,
        ],
    }
}

/// Builds the command of [`version_query`].
pub fn ffmpeg_version_query() -> (command: Invocation)
    ensures
        command@ == version_query(),
{
    let mut args: Vec<String> = Vec::new();
    args.push(String::from_str("-version"));
    let command = Invocation { program: String::from_str("ffmpeg"), args };
    assert(command@.args =~= version_query().args);
    command
}

/// Builds the command of [`conversion`].
pub fn ffmpeg_conversion(input: &str, output: &str) -> (command: Invocation)
    ensures
        command@ == conversion(input@, output@),
{
    let mut args: Vec<String> = Vec::new();
    args.push(String::from_str("-i"));
    args.push(String::from_str(input));
    args.push(String::from_str("-acodec"));
    args.push(String::from_str("pcm_s16le"));
    args.push(String::from_str("-ar"));
    args.push(String::from_str("16000"));
    args.push(String::from_str("-ac"));
    args.push(String::from_str("1"));
    args.push(String::from_str("-y"));
    args.push(String::from_str(output));
    let command = Invocation { program: String::from_str("ffmpeg"), args };
    assert(command@.args =~= conversion(input@, output@).args);
    command
}

/// Judges the version query: the transcoder is available exactly if the query
/// ran and reported success.
pub fn check_ffmpeg_available(outcome: ProcessOutcome) -> (r: Result<(), WhisperError>)
    ensures
        outcome.succeeded() ==> r == Ok::<(), WhisperError>(()),
        !outcome.succeeded() ==> r == Err::<(), _>(WhisperError::FFmpegNotFound),
{
    match outcome {
        ProcessOutcome::Exited { success: true } => Ok(()),
        _ => Err(WhisperError::FFmpegNotFound),
    }
}

/// First stage: the caller runs [`Probing::command`].
#[derive(Debug)]
pub struct Probing {
    input: String,
}

/// Second stage: the caller creates an empty temporary file whose name ends in
/// [`Allocating::suffix`], and removes it when the ingestion is over, however it ends.
#[derive(Debug)]
pub struct Allocating {
    input: String,
}

/// Third stage: the caller runs [`Converting::command`], which fills the temporary file.
#[derive(Debug)]
pub struct Converting {
    input: String,
    output: String,
}

/// Begins the conversion of the file at `input_path`. The transcoder is
/// probed before anything else is done.
pub fn convert_to_wav(input_path: &str) -> (stage: Probing)
    ensures
        stage.input() == input_path@,
{
    Probing { input: String::from_str(input_path) }
}

impl Probing {
    /// The path of the file to convert.
    pub closed spec fn input(self) -> Seq<char> {
        self.input@
    }

    /// The version query.
    pub fn command(&self) -> (command: Invocation)
        ensures
            command@ == version_query(),
    {
        ffmpeg_version_query()
    }

    /// Takes the outcome of the version query. Anything but success ends the
    /// conversion with `FFmpegNotFound`.
    pub fn finish(self, outcome: ProcessOutcome) -> (r: Result<Allocating, WhisperError>)
        ensures
            outcome.succeeded() ==> r is Ok && r->Ok_0.input() == self.input(),
            !outcome.succeeded() ==> r == Err::<Allocating, _>(WhisperError::FFmpegNotFound),
    {
        match check_ffmpeg_available(outcome) {
            Ok(()) => Ok(Allocating { input: self.input }),
            Err(e) => Err(e),
        }
    }
}

impl Allocating {
    /// The path of the file to convert.
    pub closed spec fn input(self) -> Seq<char> {
        self.input@
    }

    /// The ending of the temporary file's name.
    pub fn suffix(&self) -> (suffix: &'static str)
        ensures
            suffix@ == ".wav"@,
    {
        ".wav"
    }

    /// Takes the path of the temporary file, or the text of the error that
    /// kept it from being created; that text ends the conversion as an `IoError`.
    pub fn finish(self, created: Result<String, String>) -> (r: Result<Converting, WhisperError>)
        ensures
            created matches Ok(path) ==> r is Ok && r->Ok_0.input() == self.input()
                && r->Ok_0.output() == path@,
            created matches Err(text) ==> r == Err::<Converting, _>(WhisperError::IoError(text)),
    {
        match created {
            Ok(path) => Ok(Converting { input: self.input, output: path }),
            Err(text) => Err(WhisperError::IoError(text)),
        }
    }
}

impl Converting {
    /// The path of the file to convert.
    pub closed spec fn input(self) -> Seq<char> {
        self.input@
    }

    /// The path of the temporary file.
    pub closed spec fn output(self) -> Seq<char> {
        self.output@
    }

    /// The transcoding command.
    pub fn command(&self) -> (command: Invocation)
        ensures
            command@ == conversion(self.input(), self.output()),
    {
        ffmpeg_conversion(self.input.as_str(), self.output.as_str())
    }

    /// Takes the outcome of the transcoding. On success the result is the path
    /// of the WAV file; anything else ends the conversion with `AudioConversionFailed`.
    pub fn finish(self, outcome: ProcessOutcome) -> (r: Result<String, WhisperError>)
        ensures
            outcome.succeeded() ==> r is Ok && r->Ok_0@ == self.output(),
            !outcome.succeeded() ==> r == Err::<String, _>(WhisperError::AudioConversionFailed),
    {
        match outcome {
            ProcessOutcome::Exited { success: true } => Ok(self.output),
            _ => Err(WhisperError::AudioConversionFailed),
        }
    }
}

} // verus!
