//! Whether a message is shown, and how it is styled.
//!
//! Whether messages are shown at all is a setting of the [`Logger`] that is
//! handed to every call; nothing is written here.

use vstd::prelude::*;
use vstd::string::StringExecFns;

verus! {

/// What a message is about.
#[derive(Debug, Clone, Copy, PartialEq, Eq, Structural)]
pub enum LogLevel {
    Info,
    Success,
    Warning,
    Error,
}

/// The colours that messages are written in.
#[derive(Debug, Clone, Copy, PartialEq, Eq, Structural)]
pub enum Color {
    Green,
    Yellow,
    Red,
}

/// How a message is written.
#[derive(Debug, Clone, Copy, PartialEq, Eq, Structural)]
pub struct Style {
    /// The colour, where it is not that of the terminal.
    pub color: Option<Color>,
    pub bold: bool,
}

/// The style of each kind of message.
pub open spec fn style_of(level: LogLevel) -> Style {
    match level {
        LogLevel::Info => Style { color: None, bold: true },
        LogLevel::Success => Style { color: Some(Color::Green), bold: false },
        LogLevel::Warning => Style { color: Some(Color::Yellow), bold: false },
        LogLevel::Error => Style { color: Some(Color::Red), bold: true },
    }
}

/// The setting that messages are shown by.
#[derive(Debug)]
pub struct Logger {
    silent: bool,
}

impl Logger {
    /// Whether messages are kept back.
    pub closed spec fn silent(self) -> bool {
        self.silent
    }

    /// A logger that shows its messages.
    pub fn new() -> (logger: Logger)
        ensures
            !logger.silent(),
    {
        Logger { silent: false }
    }
}

/// Keeps the messages of `logger` back from now on, or shows them again.
pub fn set_silent(logger: &mut Logger, silent: bool)
    ensures
        final(logger).silent() == silent,
{
    logger.silent = silent;
}

/// Whether the messages of `logger` are kept back.
pub fn is_silent(logger: &Logger) -> (silent: bool)
    ensures
        silent == logger.silent(),
{
    logger.silent
}

/// A message as it goes to standard error.
#[derive(Debug, PartialEq, Eq)]
pub struct Line {
    pub style: Style,
    pub text: String,
}

/// Decides on a message: `None` where it is kept back, otherwise the line
/// that goes to standard error, the message in the style of its kind.
pub fn log(logger: &Logger, level: LogLevel, message: &str) -> (line: Option<Line>)
    ensures
        line is None == logger.silent(),
        line matches Some(l) ==> l.style == style_of(level) && l.text@ == message@,
{
    if is_silent(logger) {
        return None;
    }
    let style = match level {
        LogLevel::Info => Style { color: None, bold: true },
        LogLevel::Success => Style { color: Some(Color::Green), bold: false },
        LogLevel::Warning => Style { color: Some(Color::Yellow), bold: false },
        LogLevel::Error => Style { color: Some(Color::Red), bold: true },
    };
    Some(Line { style, text: String::from_str(message) })
}

} // verus!
