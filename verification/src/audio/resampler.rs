//! The decision whether to resample, and the parameters of the sinc filter.
//!
//! The filter itself runs in floating point and is not part of this crate: a
//! [`ResamplePlan`] tells the caller how to set it up.

use crate::error::WhisperError;
use vstd::prelude::*;

verus! {

/// Taps on each side of the sinc filter.
pub const SINC_LEN: usize = 256;

/// Cutoff of the filter, in hundredths of the Nyquist frequency of the lower rate.
pub const CUTOFF_PERCENT: u32 = 95;

/// Points of the precomputed sinc table between two input samples.
pub const OVERSAMPLING_FACTOR: usize = 256;

/// Smallest chunk that is handed to the filter.
pub const MIN_CHUNK_SIZE: usize = 1024;

/// Bound on later changes of the ratio, relative to the ratio the filter starts with.
pub const MAX_RATIO_RELATIVE: u32 = 2;

/// How a value between two points of the sinc table is found.
#[derive(Debug, Clone, Copy, PartialEq, Eq, Structural)]
pub enum Interpolation {
    Cubic,
    Quadratic,
    Linear,
    Nearest,
}

/// The window that truncates the sinc.
#[derive(Debug, Clone, Copy, PartialEq, Eq, Structural)]
pub enum Window {
    Blackman,
    Blackman2,
    BlackmanHarris,
    /// Blackman-Harris, squared.
    BlackmanHarris2,
    Hann,
    Hann2,
}

/// Everything the sinc filter is set up with. The ratio of the conversion is
/// `to_rate / from_rate`.
#[derive(Debug, Clone, Copy, PartialEq, Eq, Structural)]
pub struct ResamplePlan {
    pub from_rate: u32,
    pub to_rate: u32,
    pub max_ratio_relative: u32,
    pub sinc_len: usize,
    pub cutoff_percent: u32,
    pub oversampling_factor: usize,
    pub interpolation: Interpolation,
    pub window: Window,
    /// Samples handed to the filter in its one call.
    pub chunk_size: usize,
    pub channels: usize,
}

/// The plan for `len` samples: the fixed parameters, and the whole input as
/// one chunk of at least [`MIN_CHUNK_SIZE`] samples.
pub open spec fn plan_for(len: nat, from_rate: u32, to_rate: u32) -> ResamplePlan {
    ResamplePlan {
        from_rate,
        to_rate,
        max_ratio_relative: MAX_RATIO_RELATIVE,
        sinc_len: SINC_LEN,
        cutoff_percent: CUTOFF_PERCENT,
        oversampling_factor: OVERSAMPLING_FACTOR,
        interpolation: Interpolation::Linear,
        window: Window::BlackmanHarris2,
        chunk_size: if len >= MIN_CHUNK_SIZE {
            len as usize
        } else {
            MIN_CHUNK_SIZE
        },
        channels: 1,
    }
}

/// What is to be done with `len` samples at `from_rate` that are wanted at
/// `to_rate`: nothing (`None`) where the rates agree, a conversion where both
/// are positive, and a failure where the ratio of the two is not a positive number.
pub open spec fn planned(len: nat, from_rate: u32, to_rate: u32) -> Result<
    Option<ResamplePlan>,
    WhisperError,
> {
    if from_rate == to_rate {
        Ok(None)
    } else if from_rate == 0 || to_rate == 0 {
        Err(WhisperError::AudioResampleFailed)
    } else {
        Ok(Some(plan_for(len, from_rate, to_rate)))
    }
}

/// `len * to_rate / from_rate`, rounded to the nearest integer, halves upwards.
pub open spec fn rounded_len(len: nat, from_rate: u32, to_rate: u32) -> nat
    recommends
        from_rate > 0,
{
    ((2 * len * to_rate + from_rate) / (2 * from_rate)) as nat
}

/// Decides whether `len` samples at `from_rate` need a conversion to reach
/// `to_rate`, and with which parameters.
pub fn resample_plan(len: usize, from_rate: u32, to_rate: u32) -> (r: Result<
    Option<ResamplePlan>,
    WhisperError,
>)
    ensures
        r == planned(len as nat, from_rate, to_rate),
{
    if from_rate == to_rate {
        return Ok(None);
    }
    if from_rate == 0 || to_rate == 0 {
        return Err(WhisperError::AudioResampleFailed);
    }
    Ok(
        Some(
            ResamplePlan {
                from_rate,
                to_rate,
                max_ratio_relative: MAX_RATIO_RELATIVE,
                sinc_len: SINC_LEN,
                cutoff_percent: CUTOFF_PERCENT,
                oversampling_factor: OVERSAMPLING_FACTOR,
                interpolation: Interpolation::Linear,
                window: Window::BlackmanHarris2,
                chunk_size: if len >= MIN_CHUNK_SIZE {
                    len
                } else {
                    MIN_CHUNK_SIZE
                },
                channels: 1,
            },
        ),
    )
}

impl ResamplePlan {
    /// The number of samples that `len` samples come to at the new rate. The
    /// filter gives somewhat fewer: it keeps back what lies at its edges.
    pub fn expected_len(&self, len: usize) -> (n: u128)
        requires
            self.from_rate > 0,
        ensures
            n == rounded_len(len as nat, self.from_rate, self.to_rate),
    {
        let doubled: u128 = 2 * (len as u128);
        assert(doubled * self.to_rate <= 0x2_0000_0000_0000_0000 * 0x1_0000_0000) by (nonlinear_arith)
            requires
                doubled <= 0x2_0000_0000_0000_0000,
                self.to_rate <= 0x1_0000_0000,
        ;
        assert(2 * len * self.to_rate == doubled * self.to_rate) by (nonlinear_arith)
            requires
                doubled == 2 * len,
        ;
        (doubled * (self.to_rate as u128) + (self.from_rate as u128)) / (2 * (self.from_rate as u128))
    }
}

/// Samples that are at the wanted rate, or on their way there.
#[derive(Debug, PartialEq, Eq)]
pub enum Resampling {
    /// The rates agree: these are the samples that came in.
    Unchanged(Vec<i32>),
    /// The samples are to be converted as the plan says.
    Needed { samples: Vec<i32>, plan: ResamplePlan },
}

/// The mathematical value of a [`Resampling`].
pub enum ResamplingView {
    Unchanged(Seq<i32>),
    Needed { samples: Seq<i32>, plan: ResamplePlan },
}

impl View for Resampling {
    type V = ResamplingView;

    open spec fn view(&self) -> ResamplingView {
        match *self {
            Resampling::Unchanged(samples) => ResamplingView::Unchanged(samples@),
            Resampling::Needed { samples, plan } => ResamplingView::Needed {
                samples: samples@,
                plan,
            },
        }
    }
}

/// What [`resample`] returns.
pub open spec fn resampled(samples: Seq<i32>, from_rate: u32, to_rate: u32) -> Result<
    ResamplingView,
    WhisperError,
> {
    match planned(samples.len(), from_rate, to_rate) {
        Ok(None) => Ok(ResamplingView::Unchanged(samples)),
        Ok(Some(plan)) => Ok(ResamplingView::Needed { samples, plan }),
        Err(e) => Err(e),
    }
}

/// Brings samples from `from_rate` to `to_rate` as far as that takes no
/// arithmetic: where the rates agree the samples come back as they are,
/// otherwise they come back with the plan of their conversion.
pub fn resample(samples: Vec<i32>, from_rate: u32, to_rate: u32) -> (r: Result<
    Resampling,
    WhisperError,
>)
    ensures
        match resampled(samples@, from_rate, to_rate) {
            Ok(v) => r is Ok && r->Ok_0@ == v,
            Err(e) => r == Err::<Resampling, _>(e),
        },
        from_rate == to_rate ==> r is Ok && r->Ok_0@ == ResamplingView::Unchanged(samples@),
{
    match resample_plan(samples.len(), from_rate, to_rate)? {
        None => Ok(Resampling::Unchanged(samples)),
        Some(plan) => Ok(Resampling::Needed { samples, plan }),
    }
}

} // verus!
