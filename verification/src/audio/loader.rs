//! The ingestion itself: from a path to samples at [`SAMPLE_RATE`].
//!
//! [`load_audio`] decides how the file is to be obtained; [`load_wav`] takes
//! the bytes of a WAV file through decoding, downmixing and the resampling
//! decision. What needs floating point is handed back to the caller, spelled
//! out, in a [`Decoded`].

use crate::audio::converter::{convert_to_wav, Probing, ProcessOutcome};
use crate::audio::formats::{format_of_path, AudioFormat};
use crate::audio::mixer::{mono_of, to_mono};
use crate::audio::resampler::{resample, resampled, ResamplePlan, Resampling, ResamplingView};
use crate::audio::wav::{
    encoding_of, parse_outcome, parse_wav, wav_header_of, wav_pcm16_of, ChannelLayout, RawAudio,
    RawAudioView, WavHeader,
};
use crate::error::WhisperError;
use vstd::prelude::*;
use vstd::string::StringExecFns;

verus! {

/// Sample rate, in hertz, of every stream that an ingestion ends in.
pub const SAMPLE_RATE: u32 = 16000;

/// One channel of samples in 65536ths of full scale, and their rate.
#[derive(Debug, PartialEq, Eq)]
pub struct AudioData {
    pub samples: Vec<i32>,
    pub sample_rate: u32,
}

/// The mathematical value of an [`AudioData`].
pub struct AudioDataView {
    pub samples: Seq<i32>,
    pub sample_rate: u32,
}

impl View for AudioData {
    type V = AudioDataView;

    open spec fn view(&self) -> AudioDataView {
        AudioDataView { samples: self.samples@, sample_rate: self.sample_rate }
    }
}

/// How far the bytes of a WAV file got without floating point.
#[derive(Debug, PartialEq, Eq)]
pub enum Decoded {
    /// All the way: 16-bit data that was at [`SAMPLE_RATE`] already.
    Ready(AudioData),
    /// 16-bit data at another rate. `samples` is its one channel; it remains
    /// to convert it as `plan` says.
    Resample { samples: Vec<i32>, plan: ResamplePlan },
    /// Float data. It remains to read the samples, to average each pair of
    /// them if `layout` is stereo, and to bring them from `sample_rate` to
    /// [`SAMPLE_RATE`].
    Float32 { layout: ChannelLayout, sample_rate: u32 },
}

/// The mathematical value of a [`Decoded`].
pub enum DecodedView {
    Ready(AudioDataView),
    Resample { samples: Seq<i32>, plan: ResamplePlan },
    Float32 { layout: ChannelLayout, sample_rate: u32 },
}

impl View for Decoded {
    type V = DecodedView;

    open spec fn view(&self) -> DecodedView {
        match *self {
            Decoded::Ready(audio) => DecodedView::Ready(audio@),
            Decoded::Resample { samples, plan } => DecodedView::Resample { samples: samples@, plan },
            Decoded::Float32 { layout, sample_rate } => DecodedView::Float32 { layout, sample_rate },
        }
    }
}

/// What becomes of parsed audio: 16-bit data is downmixed and, where its rate
/// is [`SAMPLE_RATE`], complete; float data is passed on as it is.
pub open spec fn processed(raw: RawAudioView) -> Result<DecodedView, WhisperError> {
    match raw {
        RawAudioView::Float32 { layout, sample_rate } => Ok(
            DecodedView::Float32 { layout, sample_rate },
        ),
        RawAudioView::Pcm16 { samples, layout, sample_rate } => match resampled(
            mono_of(samples, layout),
            sample_rate,
            SAMPLE_RATE,
        ) {
            Ok(ResamplingView::Unchanged(mono)) => Ok(
                DecodedView::Ready(AudioDataView { samples: mono, sample_rate: SAMPLE_RATE }),
            ),
            Ok(ResamplingView::Needed { samples, plan }) => Ok(
                DecodedView::Resample { samples, plan },
            ),
            Err(e) => Err(e),
        },
    }
}

/// What becomes of the contents of a WAV file; `None` stands for a file that
/// could not be read.
pub open spec fn loaded(contents: Option<Seq<u8>>) -> Result<DecodedView, WhisperError> {
    match contents {
        None => Err(WhisperError::AudioLoadFailed),
        Some(bytes) => match parse_outcome(wav_header_of(bytes), wav_pcm16_of(bytes)) {
            Ok(raw) => processed(raw),
            Err(e) => Err(e),
        },
    }
}

/// Downmixes parsed audio and decides on its resampling.
pub fn process(raw: RawAudio) -> (r: Result<Decoded, WhisperError>)
    ensures
        match processed(raw@) {
            Ok(decoded) => r is Ok && r->Ok_0@ == decoded,
            Err(e) => r == Err::<Decoded, _>(e),
        },
{
    match raw {
        RawAudio::Float32 { layout, sample_rate } => Ok(Decoded::Float32 { layout, sample_rate }),
        RawAudio::Pcm16 { samples, layout, sample_rate } => {
            let mono = to_mono(samples.as_slice(), layout);
            match resample(mono, sample_rate, SAMPLE_RATE)? {
                Resampling::Unchanged(samples) => Ok(
                    Decoded::Ready(AudioData { samples, sample_rate: SAMPLE_RATE }),
                ),
                Resampling::Needed { samples, plan } => Ok(Decoded::Resample { samples, plan }),
            }
        },
    }
}

/// Decodes the contents of a WAV file; `None` stands for a file that could
/// not be read, and fails with `AudioLoadFailed` like contents that are no WAV file.
pub fn load_wav(contents: Option<&[u8]>) -> (r: Result<Decoded, WhisperError>)
    ensures
        match loaded(
            match contents {
                Some(bytes) => Some(bytes@),
                None => None,
            },
        ) {
            Ok(decoded) => r is Ok && r->Ok_0@ == decoded,
            Err(e) => r == Err::<Decoded, _>(e),
        },
{
    match contents {
        None => Err(WhisperError::AudioLoadFailed),
        Some(bytes) => process(parse_wav(bytes)?),
    }
}

/// Where the WAV data of an ingestion comes from.
#[derive(Debug)]
pub enum Source {
    /// From the file itself, at this path.
    File(String),
    /// From a conversion of the file, which starts in this stage.
    Conversion(Probing),
}

/// Begins the ingestion of the file at `file_path`: a WAV file is read as it
/// is, a file in another known container is converted first, and any other
/// file is refused with `UnsupportedFileType`.
pub fn load_audio(file_path: &str) -> (r: Result<Source, WhisperError>)
    ensures
        match format_of_path(file_path@) {
            None => r == Err::<Source, _>(WhisperError::UnsupportedFileType),
            Some(AudioFormat::Wav) => r matches Ok(Source::File(path)) && path@ == file_path@,
            Some(_) => r matches Ok(Source::Conversion(stage)) && stage.input() == file_path@,
        },
{
    let format = match AudioFormat::from_path(file_path) {
        Some(format) => format,
        None => return Err(WhisperError::UnsupportedFileType),
    };
    if format.needs_conversion() {
        Ok(Source::Conversion(convert_to_wav(file_path)))
    } else {
        Ok(Source::File(String::from_str(file_path)))
    }
}

/// Everything that the world outside answers in the course of one ingestion.
/// An answer that the ingestion does not come to ask for is not looked at.
#[derive(Debug)]
pub struct Answers {
    /// How the transcoder's version query ended.
    pub probe: ProcessOutcome,
    /// The path of the temporary file, or why there is none.
    pub temp_file: core::result::Result<String, String>,
    /// How the transcoding ended.
    pub transcoding: ProcessOutcome,
    /// The contents of the WAV file, the transcoded one where there was a
    /// conversion; `None` where it could not be read.
    pub contents: Option<Vec<u8>>,
}

/// What an ingestion comes to. The stages follow each other, each is gone
/// into only if the one before it succeeded, and the first failure is the result.
pub open spec fn ingested(file_path: Seq<char>, answers: Answers) -> Result<
    DecodedView,
    WhisperError,
> {
    let contents = match answers.contents {
        Some(bytes) => Some(bytes@),
        None => None,
    };
    match format_of_path(file_path) {
        None => Err(WhisperError::UnsupportedFileType),
        Some(AudioFormat::Wav) => loaded(contents),
        Some(_) => if !answers.probe.succeeded() {
            Err(WhisperError::FFmpegNotFound)
        } else {
            match answers.temp_file {
                Err(text) => Err(WhisperError::IoError(text)),
                Ok(_) => if !answers.transcoding.succeeded() {
                    Err(WhisperError::AudioConversionFailed)
                } else {
                    loaded(contents)
                },
            }
        },
    }
}

/// Goes through a whole ingestion with answers that are known beforehand,
/// stage by stage as a caller does with the answers as they come.
pub fn ingest(file_path: &str, answers: Answers) -> (r: Result<Decoded, WhisperError>)
    ensures
        match ingested(file_path@, answers) {
            Ok(decoded) => r is Ok && r->Ok_0@ == decoded,
            Err(e) => r == Err::<Decoded, _>(e),
        },
{
    let Answers { probe, temp_file, transcoding, contents } = answers;
    match load_audio(file_path)? {
        Source::File(_) => {},
        Source::Conversion(probing) => {
            let allocating = probing.finish(probe)?;
            let converting = allocating.finish(temp_file)?;
            converting.finish(transcoding)?;
        },
    }
    match contents {
        Some(bytes) => load_wav(Some(bytes.as_slice())),
        None => load_wav(None),
    }
}

/// No conversion without the transcoder: where the file is of a container
/// that needs converting and the version query does not succeed, the ingestion
/// ends with `FFmpegNotFound`, whatever the other answers are.
pub proof fn lemma_no_conversion_without_transcoder(file_path: Seq<char>, answers: Answers)
    requires
        format_of_path(file_path) is Some,
        format_of_path(file_path) != Some(AudioFormat::Wav),
        !answers.probe.succeeded(),
    ensures
        ingested(file_path, answers) == Err::<DecodedView, _>(WhisperError::FFmpegNotFound),
{
}

/// A WAV file is ingested without the transcoder: the answers about it do
/// not matter.
pub proof fn lemma_wav_needs_no_transcoder(file_path: Seq<char>, a: Answers, b: Answers)
    requires
        format_of_path(file_path) == Some(AudioFormat::Wav),
        a.contents == b.contents,
    ensures
        ingested(file_path, a) == ingested(file_path, b),
{
}

/// Every ingestion that completes here ends at [`SAMPLE_RATE`], and a plan
/// that is handed out leads from the file's rate, which is another, to it.
pub proof fn lemma_target_rate(raw: RawAudioView)
    ensures
        processed(raw) matches Ok(DecodedView::Ready(audio)) ==> audio.sample_rate == SAMPLE_RATE,
        processed(raw) matches Ok(DecodedView::Resample { samples, plan }) ==> plan.to_rate
            == SAMPLE_RATE && plan.from_rate != SAMPLE_RATE && plan.from_rate > 0,
{
}

/// 16-bit data at [`SAMPLE_RATE`] is complete after downmixing, untouched by
/// any resampling: as many samples as came in for one channel, half as many for two.
pub proof fn lemma_canonical_rate_is_ready(samples: Seq<i16>, layout: ChannelLayout)
    ensures
        processed(RawAudioView::Pcm16 { samples, layout, sample_rate: SAMPLE_RATE }) == Ok::<
            _,
            WhisperError,
        >(
            DecodedView::Ready(
                AudioDataView { samples: mono_of(samples, layout), sample_rate: SAMPLE_RATE },
            ),
        ),
        layout == ChannelLayout::Mono ==> mono_of(samples, layout).len() == samples.len(),
        layout == ChannelLayout::Stereo ==> mono_of(samples, layout).len() == samples.len() / 2,
{
}

/// A header whose encoding is neither 16-bit integer nor 32-bit float fails
/// the parse with `AudioLoadFailed`, whatever the file holds besides. Every
/// bit depth other than 16 and 32 is such a header.
pub proof fn lemma_unsupported_encoding_fails(header: WavHeader, pcm: Option<Seq<i16>>)
    requires
        encoding_of(header) is None,
    ensures
        parse_outcome(Some(header), pcm) == Err::<RawAudioView, _>(WhisperError::AudioLoadFailed),
        header.bits_per_sample != 16 && header.bits_per_sample != 32 ==> encoding_of(header) is None,
{
}

/// A header with no channel or with more than two fails the parse with
/// `AudioLoadFailed`, whatever the file holds besides.
pub proof fn lemma_unsupported_channels_fail(header: WavHeader, pcm: Option<Seq<i16>>)
    requires
        header.channels == 0 || header.channels >= 3,
    ensures
        parse_outcome(Some(header), pcm) == Err::<RawAudioView, _>(WhisperError::AudioLoadFailed),
{
}

} // verus!
