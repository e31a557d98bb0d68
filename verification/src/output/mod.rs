//! What is shown to the user.

pub mod logger;

pub use logger::{is_silent, set_silent};
