use simple_clap_logger::{AlreadyRegistered, Logger, RegistrySlot, Severity, Stream};

#[test]
fn check_log_level() {
    let logger = Logger { level: Severity::Info };

    assert!(logger.enabled(Severity::Error));
    assert!(logger.enabled(Severity::Warn));
    assert!(logger.enabled(Severity::Info));
    assert!(!logger.enabled(Severity::Debug));
    assert!(!logger.enabled(Severity::Trace));
}

#[test]
fn enabled_matches_ordering_for_every_pair() {
    let all = [
        Severity::Error,
        Severity::Warn,
        Severity::Info,
        Severity::Debug,
        Severity::Trace,
    ];
    for (min_pos, min) in all.iter().enumerate() {
        let logger = Logger { level: *min };
        for (rec_pos, rec) in all.iter().enumerate() {
            assert_eq!(logger.enabled(*rec), rec_pos <= min_pos);
        }
    }
}

#[test]
fn prefix_words_exact() {
    assert_eq!(simple_clap_logger::prefix_text(Severity::Error), "error:");
    assert_eq!(simple_clap_logger::prefix_text(Severity::Warn), "warn:");
    assert_eq!(simple_clap_logger::prefix_text(Severity::Info), "info:");
    assert_eq!(simple_clap_logger::prefix_text(Severity::Debug), "debug:");
    assert_eq!(simple_clap_logger::prefix_text(Severity::Trace), "trace:");
}

#[test]
fn plain_lines_are_padded_to_six_columns() {
    assert_eq!(
        simple_clap_logger::render_line(Severity::Error, "A error message"),
        "error: A error message"
    );
    assert_eq!(
        simple_clap_logger::render_line(Severity::Warn, "Danger!"),
        "warn:  Danger!"
    );
    assert_eq!(
        simple_clap_logger::render_line(Severity::Info, "This program is currently running"),
        "info:  This program is currently running"
    );
    assert_eq!(
        simple_clap_logger::render_line(Severity::Debug, "Super important debug message"),
        "debug: Super important debug message"
    );
    assert_eq!(
        simple_clap_logger::render_line(Severity::Trace, "Adding 1 + 1"),
        "trace: Adding 1 + 1"
    );
}

#[test]
fn trace_sink_takes_all_five_records_to_their_streams() {
    colored::control::set_override(false);
    let logger = Logger::init_with_level(Severity::Trace);

    let (stream, line) = logger.log(Severity::Error, "A error message").unwrap();
    assert_eq!(stream, Stream::StdErr);
    assert_eq!(line, "error: A error message");

    let (stream, line) = logger.log(Severity::Warn, "Danger!").unwrap();
    assert_eq!(stream, Stream::StdOut);
    assert_eq!(line, "warn:  Danger!");

    let (stream, line) = logger
        .log(Severity::Info, "This program is currently running")
        .unwrap();
    assert_eq!(stream, Stream::StdOut);
    assert_eq!(line, "info:  This program is currently running");

    let (stream, line) = logger
        .log(Severity::Debug, "Super important debug message")
        .unwrap();
    assert_eq!(stream, Stream::StdOut);
    assert_eq!(line, "debug: Super important debug message");

    let (stream, line) = logger.log(Severity::Trace, "Adding 1 + 1").unwrap();
    assert_eq!(stream, Stream::StdOut);
    assert_eq!(line, "trace: Adding 1 + 1");

    colored::control::unset_override();
}

#[test]
fn colored_line_keeps_padding_after_the_styled_prefix() {
    colored::control::set_override(true);
    let logger = Logger::init_with_level(Severity::Info);

    let (stream, line) = logger.log(Severity::Warn, "Danger!").unwrap();
    assert_eq!(stream, Stream::StdOut);
    assert_eq!(line, "\u{1b}[1;33mwarn:\u{1b}[0m  Danger!");

    let (stream, line) = logger.log(Severity::Error, "A error message").unwrap();
    assert_eq!(stream, Stream::StdErr);
    assert_eq!(line, "\u{1b}[1;31merror:\u{1b}[0m A error message");

    colored::control::unset_override();
}

#[test]
fn error_sink_drops_a_warn_record() {
    let logger = Logger::init_with_level(Severity::Error);
    assert!(logger.log(Severity::Warn, "Danger!").is_none());
    assert!(logger.log(Severity::Error, "A error message").is_some());
}

#[test]
fn init_defaults_to_errors_only() {
    let logger = Logger::init();
    assert_eq!(logger.level, Severity::Error);
    assert!(logger.enabled(Severity::Error));
    assert!(!logger.enabled(Severity::Warn));
    assert!(!logger.enabled(Severity::Info));
    assert!(!logger.enabled(Severity::Debug));
    assert!(!logger.enabled(Severity::Trace));
}

#[test]
fn init_with_level_keeps_the_given_level() {
    let logger = Logger::init_with_level(Severity::Debug);
    assert_eq!(logger.level, Severity::Debug);
    assert!(logger.enabled(Severity::Debug));
    assert!(!logger.enabled(Severity::Trace));
}

#[test]
fn second_registration_fails_and_changes_nothing() {
    let mut slot = RegistrySlot::new();
    assert!(slot.sink.is_none());

    let first = slot.claim(Logger::init_with_level(Severity::Info));
    assert_eq!(first, Ok(()));
    assert_eq!(slot.sink.as_ref().map(|s| s.level), Some(Severity::Info));

    let second = slot.claim(Logger::init_with_level(Severity::Trace));
    assert_eq!(second, Err(AlreadyRegistered));
    assert_eq!(slot.sink.as_ref().map(|s| s.level), Some(Severity::Info));

    let third = slot.claim(Logger::init());
    assert_eq!(third, Err(AlreadyRegistered));
    assert_eq!(slot.sink.as_ref().map(|s| s.level), Some(Severity::Info));
}

#[test]
fn colored_prefix_decorates_and_degrades() {
    let words = [
        (Severity::Error, "error:", "\u{1b}[1;31merror:\u{1b}[0m"),
        (Severity::Warn, "warn:", "\u{1b}[1;33mwarn:\u{1b}[0m"),
        (Severity::Info, "info:", "\u{1b}[1;32minfo:\u{1b}[0m"),
        (Severity::Debug, "debug:", "\u{1b}[1;34mdebug:\u{1b}[0m"),
        (Severity::Trace, "trace:", "\u{1b}[1;35mtrace:\u{1b}[0m"),
    ];

    colored::control::set_override(true);
    for (severity, _, decorated) in words {
        assert_eq!(simple_clap_logger::get_prefix(severity), decorated);
    }

    colored::control::set_override(false);
    for (severity, word, _) in words {
        assert_eq!(simple_clap_logger::get_prefix(severity), word);
    }
    colored::control::unset_override();
}
