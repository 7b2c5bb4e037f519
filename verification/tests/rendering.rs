use loggerv::{
    init_quiet, init_with_level, init_with_verbosity, Colour, ConfigError, GlobalSink, Level,
    LogRecord, Logger, Output,
};

fn plain() -> Logger {
    Logger::with_terminal(false, false)
}

fn colored() -> Logger {
    Logger::with_terminal(true, true)
}

#[test]
fn end_to_end_with_level_and_separator() {
    let mut sink = GlobalSink::new();
    let outcome = Logger::with_terminal(false, false)
        .separator(" = ")
        .level(true)
        .include_module_path(false)
        .colors(false)
        .filter("warn")
        .verbosity(1)
        .init(&mut sink);
    assert_eq!(outcome, Ok(()));
    let record = LogRecord::new(Level::Info, Some("app::module"), Some(12), "hello");
    assert_eq!(sink.logger().unwrap().format(&record), "INFO = hello");
    let emission = sink.log(&record).unwrap();
    assert_eq!(emission.output, Output::Stdout);
    assert_eq!(emission.text, "INFO = hello\n");
    let record = LogRecord::new(Level::Debug, Some("app::module"), Some(12), "hidden");
    assert!(sink.log(&record).is_none());
    assert!(sink.enabled(Level::Info, Some("app")));
    assert!(!sink.enabled(Level::Debug, Some("app")));
}

#[test]
fn a_second_registration_fails() {
    let mut sink = GlobalSink::new();
    assert!(!sink.is_registered());
    assert_eq!(plain().verbosity(3).init(&mut sink), Ok(()));
    assert!(sink.is_registered());
    assert_eq!(plain().init(&mut sink), Err(ConfigError::DoubleRegistration));
    assert!(sink.is_registered());
    assert_eq!(sink.logger().unwrap().threshold(), Level::Trace);
    assert_eq!(init_quiet(&mut sink), Err(ConfigError::DoubleRegistration));
    assert_eq!(init_with_level(Level::Info, &mut sink), Err(ConfigError::DoubleRegistration));
    assert_eq!(init_with_verbosity(0, &mut sink), Err(ConfigError::DoubleRegistration));
    assert_eq!(sink.logger().unwrap().threshold(), Level::Trace);
    let other = plain().finalize();
    assert_eq!(sink.register(other), Err(ConfigError::DoubleRegistration));
}

#[test]
fn an_unregistered_sink_writes_nothing() {
    let sink = GlobalSink::new();
    let record = LogRecord::new(Level::Error, Some("m"), None, "lost");
    assert!(sink.log(&record).is_none());
    assert!(!sink.enabled(Level::Error, Some("m")));
    assert!(!sink.enabled(Level::Error, None));
    assert!(sink.logger().is_none());
}

#[test]
fn init_helpers_set_the_threshold() {
    let mut sink = GlobalSink::new();
    assert_eq!(init_with_level(Level::Info, &mut sink), Ok(()));
    assert_eq!(sink.logger().unwrap().threshold(), Level::Info);
    assert!(sink.enabled(Level::Info, Some("m")));
    assert!(!sink.enabled(Level::Debug, Some("m")));

    let mut sink = GlobalSink::new();
    assert_eq!(init_with_verbosity(0, &mut sink), Ok(()));
    assert_eq!(sink.logger().unwrap().threshold(), Level::Warn);
    let mut sink = GlobalSink::new();
    assert_eq!(init_with_verbosity(1, &mut sink), Ok(()));
    assert_eq!(sink.logger().unwrap().threshold(), Level::Info);
    let mut sink = GlobalSink::new();
    assert_eq!(init_with_verbosity(2, &mut sink), Ok(()));
    assert_eq!(sink.logger().unwrap().threshold(), Level::Debug);
    let mut sink = GlobalSink::new();
    assert_eq!(init_with_verbosity(3, &mut sink), Ok(()));
    assert_eq!(sink.logger().unwrap().threshold(), Level::Trace);

    let mut sink = GlobalSink::new();
    assert_eq!(init_quiet(&mut sink), Ok(()));
    assert_eq!(sink.logger().unwrap().threshold(), Level::Warn);
    assert!(sink.enabled(Level::Warn, None));
    assert!(sink.enabled(Level::Error, None));
    assert!(!sink.enabled(Level::Info, None));
    let record = LogRecord::new(Level::Warn, Some("quiet"), None, "careful");
    let emission = sink.log(&record).unwrap();
    assert_eq!(emission.output, Output::Stderr);
    assert!(emission.text.ends_with("careful\n"));
}

#[test]
fn default_format_is_module_path_and_message() {
    let logger = plain().finalize();
    let record = LogRecord::new(Level::Error, Some("app::net"), Some(7), "down");
    assert_eq!(logger.format(&record), "app::net: down");
    let record = LogRecord::new(Level::Error, None, Some(7), "down");
    assert_eq!(logger.format(&record), "unknown: down");
}

#[test]
fn tag_parts_come_in_order() {
    let record = LogRecord::new(Level::Warn, Some("app::net"), Some(42), "slow");
    let logger = plain().level(true).finalize();
    assert_eq!(logger.format(&record), "WARN [app::net]: slow");
    let logger = plain().level(true).line_numbers(true).finalize();
    assert_eq!(logger.format(&record), "WARN [app::net] (line 42): slow");
    let logger = plain().line_numbers(true).finalize();
    assert_eq!(logger.format(&record), "app::net (line 42): slow");
    let logger = plain().level(true).no_module_path().line_numbers(true).finalize();
    assert_eq!(logger.format(&record), "WARN (line 42): slow");
    let logger = plain().no_module_path().line_numbers(true).finalize();
    assert_eq!(logger.format(&record), " (line 42): slow");
    let logger = plain().level(true).no_module_path().finalize();
    assert_eq!(logger.format(&record), "WARN: slow");
    let record = LogRecord::new(Level::Warn, None, None, "slow");
    let logger = plain().level(true).line_numbers(true).finalize();
    assert_eq!(logger.format(&record), "WARN [unknown]: slow");
    let logger = plain().no_module_path().line_numbers(true).finalize();
    assert_eq!(logger.format(&record), ": slow");
}

#[test]
fn line_numbers_are_decimal() {
    let logger = plain().no_module_path().line_numbers(true).separator("|").finalize();
    for (line, expected) in [
        (0u32, " (line 0)|m"),
        (7, " (line 7)|m"),
        (9, " (line 9)|m"),
        (10, " (line 10)|m"),
        (99, " (line 99)|m"),
        (100, " (line 100)|m"),
        (1203, " (line 1203)|m"),
        (4294967295, " (line 4294967295)|m"),
    ] {
        let record = LogRecord::new(Level::Error, None, Some(line), "m");
        assert_eq!(logger.format(&record), expected);
    }
}

#[test]
fn an_empty_tag_drops_the_separator() {
    let logger = plain()
        .separator(" >>> ")
        .level(false)
        .line_numbers(false)
        .include_module_path(false)
        .finalize();
    assert_eq!(logger.separator_text(), "");
    let record = LogRecord::new(Level::Error, Some("app"), Some(3), "bare message");
    assert_eq!(logger.format(&record), "bare message");
    assert_eq!(logger.log(&record).unwrap().text, "bare message\n");
    let record = LogRecord::new(Level::Warn, None, None, "");
    assert_eq!(logger.format(&record), "");
    let logger = plain().separator(" >>> ").no_module_path().line_numbers(true).finalize();
    assert_eq!(logger.separator_text(), " >>> ");
}

#[test]
fn formatting_is_deterministic() {
    let logger = colored().level(true).line_numbers(true).finalize();
    let record = LogRecord::new(Level::Debug, Some("a::b"), Some(5), "same");
    let first = logger.format(&record);
    let second = logger.format(&record);
    assert_eq!(first.as_bytes(), second.as_bytes());
    let again = LogRecord::new(Level::Debug, Some("a::b"), Some(5), "same");
    let other = colored().level(true).line_numbers(true).finalize();
    assert_eq!(other.format(&again).as_bytes(), first.as_bytes());
}

#[test]
fn without_colors_no_escape_is_written() {
    let logger = Logger::with_terminal(false, true)
        .colors_on_terminal(true, false, true)
        .color(&Level::Error, Colour::RGB(200, 10, 10))
        .color(&Level::Info, Colour::Purple)
        .level(true)
        .line_numbers(true)
        .verbosity(3)
        .finalize();
    assert!(!logger.colors_enabled());
    for level in [Level::Error, Level::Warn, Level::Info, Level::Debug, Level::Trace] {
        let record = LogRecord::new(level, Some("app::paint"), Some(1), "plain text");
        let text = logger.log(&record).unwrap().text;
        assert!(!text.contains('\u{1b}'));
    }
    let record = LogRecord::new(Level::Error, Some("app::paint"), Some(1), "plain text");
    assert_eq!(logger.format(&record), "ERROR [app::paint] (line 1): plain text");
}

#[test]
fn colors_wrap_the_tag_and_never_the_message() {
    let logger = colored().finalize();
    assert!(logger.colors_enabled());
    let record = LogRecord::new(Level::Error, Some("app"), None, "boom");
    assert_eq!(logger.format(&record), "\u{1b}[38;5;9mapp\u{1b}[0m: boom");
    let record = LogRecord::new(Level::Warn, Some("app"), None, "boom");
    assert_eq!(logger.format(&record), "\u{1b}[38;5;11mapp\u{1b}[0m: boom");
    let record = LogRecord::new(Level::Info, Some("app"), None, "boom");
    assert_eq!(logger.format(&record), "\u{1b}[38;5;10mapp\u{1b}[0m: boom");
    let record = LogRecord::new(Level::Debug, Some("app"), None, "boom");
    assert_eq!(logger.format(&record), "\u{1b}[38;5;7mapp\u{1b}[0m: boom");
    let record = LogRecord::new(Level::Trace, Some("app"), None, "boom");
    assert_eq!(logger.format(&record), "\u{1b}[38;5;8mapp\u{1b}[0m: boom");
}

#[test]
fn every_colour_has_its_code() {
    let record = LogRecord::new(Level::Info, None, None, "m");
    for (colour, code) in [
        (Colour::Black, "30"),
        (Colour::Red, "31"),
        (Colour::Green, "32"),
        (Colour::Yellow, "33"),
        (Colour::Blue, "34"),
        (Colour::Purple, "35"),
        (Colour::Cyan, "36"),
        (Colour::White, "37"),
        (Colour::Fixed(0), "38;5;0"),
        (Colour::Fixed(42), "38;5;42"),
        (Colour::Fixed(255), "38;5;255"),
        (Colour::RGB(0, 0, 0), "38;2;0;0;0"),
        (Colour::RGB(1, 20, 255), "38;2;1;20;255"),
    ] {
        let logger = colored().level(true).no_module_path().color(&Level::Info, colour).finalize();
        let expected = format!("\u{1b}[{}mINFO\u{1b}[0m: m", code);
        assert_eq!(logger.format(&record), expected);
    }
}

#[test]
fn an_empty_tag_is_still_painted() {
    let logger = colored().no_module_path().separator("--").finalize();
    let record = LogRecord::new(Level::Error, Some("app"), Some(1), "bare");
    assert_eq!(logger.format(&record), "\u{1b}[38;5;9m\u{1b}[0mbare");
}

#[test]
fn routing_follows_the_style_of_the_level() {
    let logger = plain().verbosity(3).finalize();
    assert_eq!(logger.route(Level::Error), Output::Stderr);
    assert_eq!(logger.route(Level::Warn), Output::Stderr);
    assert_eq!(logger.route(Level::Info), Output::Stdout);
    assert_eq!(logger.route(Level::Debug), Output::Stdout);
    assert_eq!(logger.route(Level::Trace), Output::Stdout);
    let logger = plain()
        .output(&Level::Error, Output::Stdout)
        .output(&Level::Trace, Output::Stderr)
        .verbosity(3)
        .finalize();
    assert_eq!(logger.route(Level::Error), Output::Stdout);
    assert_eq!(logger.route(Level::Trace), Output::Stderr);
    assert_eq!(logger.route(Level::Warn), Output::Stderr);
    let record = LogRecord::new(Level::Trace, Some("m"), None, "t");
    assert_eq!(logger.log(&record).unwrap().output, Output::Stderr);
}

#[test]
fn directives_take_precedence_over_the_global_threshold() {
    let logger = plain().filter("noisy=trace,calm=error").max_level(Level::Info).finalize();
    assert_eq!(logger.threshold(), Level::Info);
    assert_eq!(logger.max_level(), Level::Trace);
    assert!(logger.enabled(Level::Trace, Some("noisy::inner")));
    assert!(logger.enabled(Level::Error, Some("calm")));
    assert!(!logger.enabled(Level::Warn, Some("calm")));
    assert!(logger.enabled(Level::Info, Some("other")));
    assert!(!logger.enabled(Level::Debug, Some("other")));
    assert!(logger.enabled(Level::Info, None));
    assert!(!logger.enabled(Level::Debug, None));
    assert_eq!(logger.filters().len(), 2);
    assert_eq!(logger.filters().default(), Some(Level::Info));
}

#[test]
fn the_baseline_is_the_most_verbose_threshold_of_the_filters() {
    let logger = plain().filter("error,a=info").verbosity(0);
    assert_eq!(logger.threshold(), Level::Info);
    let logger = plain().filter("error,a=info").verbosity(1);
    assert_eq!(logger.threshold(), Level::Debug);
    let logger = plain().filter("error").verbosity(1).finalize();
    assert_eq!(logger.threshold(), Level::Warn);
    let logger = plain().filter("error").finalize();
    assert_eq!(logger.threshold(), Level::Error);
    assert_eq!(logger.max_level(), Level::Error);
    let logger = plain().finalize();
    assert_eq!(logger.threshold(), Level::Warn);
    assert_eq!(logger.max_level(), Level::Warn);
    let logger = plain().verbosity(0).finalize();
    assert_eq!(logger.threshold(), Level::Warn);
}

#[test]
fn dropped_records_yield_nothing() {
    let logger = plain().filter("error").finalize();
    let record = LogRecord::new(Level::Warn, Some("m"), None, "w");
    assert!(logger.log(&record).is_none());
    let record = LogRecord::new(Level::Error, Some("m"), None, "e");
    assert_eq!(logger.log(&record).unwrap().text, "m: e\n");
}

#[test]
fn records_are_held_against_the_longest_matching_prefix() {
    let logger = plain().filter("a=warn,a::b=trace").max_level(Level::Error).finalize();
    let passes = |level: Level, module: &str| {
        logger.log(&LogRecord::new(level, Some(module), None, "m")).is_some()
    };
    assert!(passes(Level::Trace, "a::b::c"));
    assert!(passes(Level::Warn, "a::x"));
    assert!(!passes(Level::Info, "a::x"));
    assert!(passes(Level::Error, "z"));
    assert!(!passes(Level::Warn, "z"));
    assert!(!passes(Level::Warn, "ab"));
    let record = LogRecord::new(Level::Trace, Some("a::b::c"), Some(3), "deep");
    assert_eq!(logger.log(&record).unwrap().text, "a::b::c: deep\n");
}

#[test]
fn without_verbosity_the_most_verbose_threshold_becomes_the_default() {
    let logger = plain().filter("error,a=debug").finalize();
    assert_eq!(logger.threshold(), Level::Debug);
    assert!(logger.enabled(Level::Debug, Some("other")));
    assert!(!logger.enabled(Level::Trace, Some("other")));
    assert!(logger.enabled(Level::Debug, Some("a")));
    assert_eq!(logger.filters().default(), Some(Level::Debug));
}
