use touchbars::log_setup::{Level, UsartLogger};

#[test]
fn log_line_for_each_level() {
    let logger = UsartLogger;
    for (level, name) in [
        (Level::Error, "ERROR"),
        (Level::Warn, "WARN"),
        (Level::Info, "INFO"),
        (Level::Debug, "DEBUG"),
        (Level::Trace, "TRACE"),
    ] {
        assert!(logger.enabled(level, "main"));
        assert_eq!(
            logger.log(true, level, "main", "boot.png displayed"),
            Some(format!("[{}] main: boot.png displayed\n", name))
        );
    }
}

#[test]
fn level_names_are_those_of_the_log_crate() {
    let line = UsartLogger.log(true, Level::Warn, "t", "m").unwrap();
    assert_eq!(line, format!("[{}] {}: {}\n", log::Level::Warn, "t", "m"));
}

#[test]
fn nothing_is_logged_without_a_port() {
    assert_eq!(UsartLogger.log(false, Level::Error, "t", "m"), None);
}

#[test]
fn empty_and_non_ascii_parts() {
    assert_eq!(
        UsartLogger.log(true, Level::Info, "", "").as_deref(),
        Some("[INFO] : \n")
    );
    assert_eq!(
        UsartLogger.log(true, Level::Info, "m\u{b5}", "\u{2713}").as_deref(),
        Some("[INFO] m\u{b5}: \u{2713}\n")
    );
}
