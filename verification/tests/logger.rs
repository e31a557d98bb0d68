use whisper_rs_cli::output::logger::{
    is_silent, log, set_silent, Color, Line, LogLevel, Logger, Style,
};

#[test]
fn test_set_silent() {
    let mut logger = Logger::new();
    set_silent(&mut logger, true);
    assert!(is_silent(&logger));

    set_silent(&mut logger, false);
    assert!(!is_silent(&logger));
}

#[test]
fn test_is_silent_default() {
    let mut logger = Logger::new();
    let default_state = is_silent(&logger);
    set_silent(&mut logger, default_state);
    assert!(!default_state);
}

#[test]
fn test_set_silent_multiple_times() {
    let mut logger = Logger::new();
    set_silent(&mut logger, true);
    assert!(is_silent(&logger));

    set_silent(&mut logger, true);
    assert!(is_silent(&logger));

    set_silent(&mut logger, false);
    assert!(!is_silent(&logger));

    set_silent(&mut logger, false);
    assert!(!is_silent(&logger));
}

#[test]
fn test_log_levels() {
    let levels = vec![LogLevel::Info, LogLevel::Success, LogLevel::Warning, LogLevel::Error];
    assert_eq!(levels.len(), 4);
}

#[test]
fn test_log_level_debug() {
    let info = LogLevel::Info;
    let success = LogLevel::Success;
    let warning = LogLevel::Warning;
    let error = LogLevel::Error;

    let _ = format!("{:?}", info);
    let _ = format!("{:?}", success);
    let _ = format!("{:?}", warning);
    let _ = format!("{:?}", error);
}

#[test]
fn test_log_silent_mode() {
    let mut logger = Logger::new();
    set_silent(&mut logger, true);
    assert_eq!(log(&logger, LogLevel::Info, "Test message"), None);
    set_silent(&mut logger, false);
}

#[test]
fn test_log_macros_compilation() {
    let mut logger = Logger::new();
    set_silent(&mut logger, true);
    assert_eq!(log(&logger, LogLevel::Info, &format!("Test info {}", "message")), None);
    assert_eq!(log(&logger, LogLevel::Success, &format!("Test success {}", "message")), None);
    assert_eq!(log(&logger, LogLevel::Warning, &format!("Test warning {}", "message")), None);
    assert_eq!(log(&logger, LogLevel::Error, &format!("Test error {}", "message")), None);
    set_silent(&mut logger, false);
}

#[test]
fn each_level_has_its_style() {
    let logger = Logger::new();
    let line = |level| log(&logger, level, "text").unwrap();
    assert_eq!(
        line(LogLevel::Info),
        Line { style: Style { color: None, bold: true }, text: "text".to_string() }
    );
    assert_eq!(line(LogLevel::Success).style, Style { color: Some(Color::Green), bold: false });
    assert_eq!(line(LogLevel::Warning).style, Style { color: Some(Color::Yellow), bold: false });
    assert_eq!(line(LogLevel::Error).style, Style { color: Some(Color::Red), bold: true });
}

#[test]
fn a_logger_that_is_audible_again_shows_its_messages() {
    let mut logger = Logger::new();
    set_silent(&mut logger, true);
    assert!(log(&logger, LogLevel::Error, "gone").is_none());
    set_silent(&mut logger, false);
    assert_eq!(log(&logger, LogLevel::Error, "back").unwrap().text, "back");
}

#[test]
fn two_loggers_do_not_share_their_setting() {
    let mut first = Logger::new();
    let second = Logger::new();
    set_silent(&mut first, true);
    assert!(is_silent(&first));
    assert!(!is_silent(&second));
}
