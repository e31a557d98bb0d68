//! Decoding of WAV containers: the header is judged here, the bytes are parsed by `hound`.

use crate::error::WhisperError;
use vstd::prelude::*;

verus! {

/// How the samples of a WAV file are stored, as its header says.
#[derive(Debug, Clone, Copy, PartialEq, Eq, Structural)]
pub enum SampleFormat {
    /// IEEE floating point.
    Float,
    /// Signed integers.
    Int,
}

/// The format header of a WAV file.
#[derive(Debug, Clone, Copy, PartialEq, Eq, Structural)]
pub struct WavHeader {
    pub channels: u16,
    pub sample_rate: u32,
    pub bits_per_sample: u16,
    pub sample_format: SampleFormat,
}

/// The two sample encodings that are decoded.
#[derive(Debug, Clone, Copy, PartialEq, Eq, Structural)]
pub enum SampleEncoding {
    /// Signed 16-bit integers.
    Pcm16,
    /// 32-bit IEEE floats.
    Float32,
}

/// The two channel layouts that are decoded.
#[derive(Debug, Clone, Copy, PartialEq, Eq, Structural)]
pub enum ChannelLayout {
    Mono,
    /// Two channels, interleaved: left, right, left, right.
    Stereo,
}

/// What a WAV file holds, before any processing.
#[derive(Debug, PartialEq, Eq)]
pub enum RawAudio {
    /// Integer samples, as stored.
    Pcm16 { samples: Vec<i16>, layout: ChannelLayout, sample_rate: u32 },
    /// Float samples. They are not decoded here: this crate computes in integers only.
    Float32 { layout: ChannelLayout, sample_rate: u32 },
}

/// The mathematical value of a [`RawAudio`].
pub enum RawAudioView {
    Pcm16 { samples: Seq<i16>, layout: ChannelLayout, sample_rate: u32 },
    Float32 { layout: ChannelLayout, sample_rate: u32 },
}

impl View for RawAudio {
    type V = RawAudioView;

    open spec fn view(&self) -> RawAudioView {
        match *self {
            RawAudio::Pcm16 { samples, layout, sample_rate } => RawAudioView::Pcm16 {
                samples: samples@,
                layout,
                sample_rate,
            },
            RawAudio::Float32 { layout, sample_rate } => RawAudioView::Float32 {
                layout,
                sample_rate,
            },
        }
    }
}

/// The header that `hound` reads from a file of these bytes; `None` where it
/// rejects them.
pub uninterp spec fn wav_header_of(bytes: Seq<u8>) -> Option<WavHeader>;

/// The samples that `hound` reads, as 16-bit integers and in file order, from
/// a file of these bytes; `None` where it rejects the bytes or any sample.
pub uninterp spec fn wav_pcm16_of(bytes: Seq<u8>) -> Option<Seq<i16>>;

/// Calls `hound::WavReader::new` on the bytes and, where that succeeds,
/// `WavReader::spec`. Nothing is claimed but that the outcome is a function of
/// the bytes, called [`wav_header_of`].
#[verifier::external_body]
fn read_header(bytes: &[u8]) -> (header: Option<WavHeader>)
    ensures
        header == wav_header_of(bytes@),
{
    let spec = hound::WavReader::new(bytes).ok()?.spec();
    let sample_format = match spec.sample_format {
        hound::SampleFormat::Float => SampleFormat::Float,
        hound::SampleFormat::Int => SampleFormat::Int,
    };
    Some(
        WavHeader {
            channels: spec.channels,
            sample_rate: spec.sample_rate,
            bits_per_sample: spec.bits_per_sample,
            sample_format,
        },
    )
}

/// Calls `hound::WavReader::new` on the bytes and collects what
/// `WavReader::into_samples::<i16>` yields. Nothing is claimed but that the
/// outcome is a function of the bytes, called [`wav_pcm16_of`].
#[verifier::external_body]
fn read_pcm16(bytes: &[u8]) -> (samples: Option<Vec<i16>>)
    ensures
        samples is Some == wav_pcm16_of(bytes@) is Some,
        samples matches Some(v) ==> wav_pcm16_of(bytes@) == Some(v@),
{
    match hound::WavReader::new(bytes) {
        Ok(reader) => reader.into_samples::<i16>().collect::<Result<Vec<i16>, hound::Error>>().ok(),
        Err(_) => None,
    }
}

/// The encoding that a header announces, where it is one of the two that are decoded.
pub open spec fn encoding_of(header: WavHeader) -> Option<SampleEncoding> {
    if header.bits_per_sample == 32 && header.sample_format == SampleFormat::Float {
        Some(SampleEncoding::Float32)
    } else if header.bits_per_sample == 16 && header.sample_format == SampleFormat::Int {
        Some(SampleEncoding::Pcm16)
    } else {
        None
    }
}

/// The layout for a channel count, where it is one of the two that are decoded.
pub open spec fn layout_of(channels: u16) -> Option<ChannelLayout> {
    if channels == 1 {
        Some(ChannelLayout::Mono)
    } else if channels == 2 {
        Some(ChannelLayout::Stereo)
    } else {
        None
    }
}

/// Whether a file with this header is decoded at all.
pub open spec fn supported(header: WavHeader) -> bool {
    encoding_of(header) is Some && layout_of(header.channels) is Some
}

/// What parsing yields, given what `hound` read: the header, and the samples as
/// 16-bit integers.
pub open spec fn parse_outcome(header: Option<WavHeader>, pcm: Option<Seq<i16>>) -> Result<
    RawAudioView,
    WhisperError,
> {
    match header {
        Some(h) if supported(h) => match encoding_of(h)->0 {
            SampleEncoding::Float32 => Ok(
                RawAudioView::Float32 {
                    layout: layout_of(h.channels)->0,
                    sample_rate: h.sample_rate,
                },
            ),
            SampleEncoding::Pcm16 => match pcm {
                Some(samples) => Ok(
                    RawAudioView::Pcm16 {
                        samples,
                        layout: layout_of(h.channels)->0,
                        sample_rate: h.sample_rate,
                    },
                ),
                None => Err(WhisperError::AudioLoadFailed),
            },
        },
        _ => Err(WhisperError::AudioLoadFailed),
    }
}

/// Judges a header: the encoding and the layout to decode with, or
/// `AudioLoadFailed` where either is not handled.
pub fn classify(header: &WavHeader) -> (r: Result<(SampleEncoding, ChannelLayout), WhisperError>)
    ensures
        supported(*header) ==> r == Ok::<_, WhisperError>(
            (encoding_of(*header)->0, layout_of(header.channels)->0),
        ),
        !supported(*header) ==> r == Err::<(SampleEncoding, ChannelLayout), _>(
            WhisperError::AudioLoadFailed,
        ),
{
    let encoding = if header.bits_per_sample == 32 && header.sample_format == SampleFormat::Float {
        SampleEncoding::Float32
    } else if header.bits_per_sample == 16 && header.sample_format == SampleFormat::Int {
        SampleEncoding::Pcm16
    } else {
        return Err(WhisperError::AudioLoadFailed);
    };
    let layout = if header.channels == 1 {
        ChannelLayout::Mono
    } else if header.channels == 2 {
        ChannelLayout::Stereo
    } else {
        return Err(WhisperError::AudioLoadFailed);
    };
    Ok((encoding, layout))
}

/// Parses the bytes of a WAV file.
///
/// Fails with `AudioLoadFailed` where the bytes are no WAV file, where the
/// encoding is neither 16-bit integer nor 32-bit float, where there are more
/// than two channels, and where a 16-bit sample cannot be read.
pub fn parse_wav(bytes: &[u8]) -> (r: Result<RawAudio, WhisperError>)
    ensures
        match parse_outcome(wav_header_of(bytes@), wav_pcm16_of(bytes@)) {
            Ok(raw) => r is Ok && r->Ok_0@ == raw,
            Err(e) => r == Err::<RawAudio, _>(e),
        },
{
    let header = match read_header(bytes) {
        Some(header) => header,
        None => return Err(WhisperError::AudioLoadFailed),
    };
    let (encoding, layout) = classify(&header)?;
    match encoding {
        SampleEncoding::Float32 => Ok(RawAudio::Float32 { layout, sample_rate: header.sample_rate }),
        SampleEncoding::Pcm16 => match read_pcm16(bytes) {
            Some(samples) => Ok(RawAudio::Pcm16 { samples, layout, sample_rate: header.sample_rate }),
            None => Err(WhisperError::AudioLoadFailed),
        },
    }
}

} // verus!
