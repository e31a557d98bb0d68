//! Downmixing to one channel, in exact fixed-point arithmetic.
//!
//! A 16-bit sample `s` stands for the amplitude `s / 32768`. The output of this
//! module counts amplitudes in 65536ths, so that the mean of two samples,
//! `(l / 32768 + r / 32768) / 2`, is the integer `l + r` and nothing is rounded.

use crate::audio::wav::ChannelLayout;
use vstd::prelude::*;

verus! {

/// The divisor that turns a 16-bit sample into an amplitude.
pub const PCM16_SCALE: i32 = 32768;

/// The divisor that turns a sample of this module's output into an amplitude.
pub const FIXED_SCALE: i32 = 65536;

/// A mono stream in 65536ths: every sample doubled.
pub open spec fn widened(samples: Seq<i16>) -> Seq<i32> {
    Seq::new(samples.len(), |i: int| (2 * samples[i]) as i32)
}

/// The (left, right) pairs of an interleaved stream. A last sample without a
/// partner is left out.
pub open spec fn paired<T>(samples: Seq<T>) -> Seq<(T, T)> {
    Seq::new(samples.len() / 2, |i: int| (samples[2 * i], samples[2 * i + 1]))
}

/// The mean of each (left, right) pair, in 65536ths.
pub open spec fn downmixed(samples: Seq<i16>) -> Seq<i32> {
    Seq::new(paired(samples).len(), |i: int| (paired(samples)[i].0 + paired(samples)[i].1) as i32)
}

/// The one channel of a stream with the given layout, in 65536ths.
pub open spec fn mono_of(samples: Seq<i16>, layout: ChannelLayout) -> Seq<i32> {
    match layout {
        ChannelLayout::Mono => widened(samples),
        ChannelLayout::Stereo => downmixed(samples),
    }
}

/// Splits an interleaved stream of two channels into its (left, right)
/// pairs, whatever its samples are.
pub fn stereo_frames<T: Copy>(samples: &[T]) -> (frames: Vec<(T, T)>)
    ensures
        frames@ == paired(samples@),
{
    let n = samples.len();
    let pairs = n / 2;
    let mut frames: Vec<(T, T)> = Vec::with_capacity(pairs);
    let mut i: usize = 0;
    while i < pairs
        invariant
            n == samples@.len(),
            pairs == n / 2,
            i <= pairs,
            frames@.len() == i,
            forall|k: int| 0 <= k < i ==> frames@[k] == (samples@[2 * k], samples@[2 * k + 1]),
        decreases pairs - i,
    {
        frames.push((samples[2 * i], samples[2 * i + 1]));
        i += 1;
    }
    assert(frames@ =~= paired(samples@));
    frames
}

/// Averages interleaved (left, right) pairs into one channel.
pub fn stereo_to_mono(samples: &[i16]) -> (mono: Vec<i32>)
    ensures
        mono@ == downmixed(samples@),
{
    let n = samples.len();
    let pairs = n / 2;
    let mut mono: Vec<i32> = Vec::with_capacity(pairs);
    let mut i: usize = 0;
    while i < pairs
        invariant
            n == samples@.len(),
            pairs == n / 2,
            i <= pairs,
            mono@.len() == i,
            forall|k: int| 0 <= k < i ==> mono@[k] == samples@[2 * k] + samples@[2 * k + 1],
        decreases pairs - i,
    {
        let left: i32 = samples[2 * i] as i32;
        let right: i32 = samples[2 * i + 1] as i32;
        mono.push(left + right);
        i += 1;
    }
    assert(mono@ =~= downmixed(samples@));
    mono
}

/// Brings a stream of one channel to this module's scale.
pub fn widen(samples: &[i16]) -> (mono: Vec<i32>)
    ensures
        mono@ == widened(samples@),
{
    let n = samples.len();
    let mut mono: Vec<i32> = Vec::with_capacity(n);
    let mut i: usize = 0;
    while i < n
        invariant
            n == samples@.len(),
            i <= n,
            mono@.len() == i,
            forall|k: int| 0 <= k < i ==> mono@[k] == 2 * samples@[k],
        decreases n - i,
    {
        let sample: i32 = samples[i] as i32;
        mono.push(2 * sample);
        i += 1;
    }
    assert(mono@ =~= widened(samples@));
    mono
}

/// Reduces a stream to one channel: a mono stream keeps every sample, a stereo
/// stream gets each pair averaged.
pub fn to_mono(samples: &[i16], layout: ChannelLayout) -> (mono: Vec<i32>)
    ensures
        mono@ == mono_of(samples@, layout),
{
    match layout {
        ChannelLayout::Mono => widen(samples),
        ChannelLayout::Stereo => stereo_to_mono(samples),
    }
}

/// A mono stream keeps its length and its amplitudes: sample `i` of the output,
/// over 65536, is sample `i` of the input over 32768. The lowest input is
/// exactly minus one; the highest stays below one.
pub proof fn lemma_mono_amplitudes(samples: Seq<i16>, i: int)
    requires
        0 <= i < samples.len(),
    ensures
        mono_of(samples, ChannelLayout::Mono).len() == samples.len(),
        mono_of(samples, ChannelLayout::Mono)[i] * PCM16_SCALE == samples[i] * FIXED_SCALE,
        -FIXED_SCALE <= mono_of(samples, ChannelLayout::Mono)[i] < FIXED_SCALE,
        samples[i] == i16::MIN ==> mono_of(samples, ChannelLayout::Mono)[i] == -FIXED_SCALE,
{
}

/// A stereo stream of `n` samples gives `n / 2`, rounded down: sample `i` of the
/// output, over 65536, is half of the sum of samples `2 i` and `2 i + 1` of the
/// input, each over 32768.
pub proof fn lemma_stereo_amplitudes(samples: Seq<i16>, i: int)
    requires
        0 <= i < samples.len() / 2,
    ensures
        mono_of(samples, ChannelLayout::Stereo).len() == samples.len() / 2,
        2 * mono_of(samples, ChannelLayout::Stereo)[i] * PCM16_SCALE == (samples[2 * i]
            + samples[2 * i + 1]) * FIXED_SCALE,
        -FIXED_SCALE <= mono_of(samples, ChannelLayout::Stereo)[i] < FIXED_SCALE,
{
}

/// A sample without a partner changes nothing: a stereo stream of odd length
/// gives what it gives without its last sample.
pub proof fn lemma_odd_sample_dropped(samples: Seq<i16>)
    requires
        samples.len() % 2 == 1,
    ensures
        paired(samples) == paired(samples.drop_last()),
        downmixed(samples) == downmixed(samples.drop_last()),
{
    assert(paired(samples) =~= paired(samples.drop_last()));
    assert(downmixed(samples) =~= downmixed(samples.drop_last()));
}

} // verus!
