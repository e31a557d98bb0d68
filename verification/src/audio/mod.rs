//! The ingestion pipeline, one stage per module.

pub mod converter;
pub mod formats;
pub mod loader;
pub mod mixer;
pub mod resampler;
pub mod wav;

pub use formats::AudioFormat;
pub use loader::{load_audio, AudioData, SAMPLE_RATE};
