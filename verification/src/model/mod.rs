//! Where a model file is found, and where it is fetched from.

pub mod downloader;
pub mod loader;

pub use loader::{load_model, DEFAULT_MODEL};
