use colored::Colorize;
use ultimate_logger::log_level::LogLevel;
use ultimate_logger::record::{Record, Sink};
use ultimate_logger::Logger;

const LEVELS: [LogLevel; 6] = [
    LogLevel::Trace,
    LogLevel::Debug,
    LogLevel::Info,
    LogLevel::Warning,
    LogLevel::Error,
    LogLevel::Critical,
];

fn is_digit_or(c: char, other: char) -> bool {
    c.is_ascii_digit() || c == other
}

/// Whether `stamp` has the shape `YYYY-MM-DD HH:MM:SS.mmm`.
fn is_timestamp(stamp: &str) -> bool {
    let chars: Vec<char> = stamp.chars().collect();
    chars.len() == 23
        && chars[..10].iter().all(|c| is_digit_or(*c, '-'))
        && chars[4] == '-'
        && chars[7] == '-'
        && chars[10] == ' '
        && chars[11..19].iter().all(|c| is_digit_or(*c, ':'))
        && chars[13] == ':'
        && chars[16] == ':'
        && chars[19] == '.'
        && chars[20..].iter().all(|c| c.is_ascii_digit())
}

/// Splits a line `[stamp] rest` into its timestamp and what follows it.
fn split_stamp(text: &str) -> (&str, &str) {
    assert!(text.starts_with('['));
    let close = text.find(']').unwrap();
    (&text[1..close], &text[close + 1..])
}

// Logger::new()

#[test]
fn new_logger_should_have_correct_min_level() {
    let logger = Logger::new(String::from("test"), LogLevel::Trace);

    assert_eq!(logger.min_level(), LogLevel::Trace);
}

#[test]
fn new_logger_should_write_to_console() {
    let logger = Logger::new(String::from("test"), LogLevel::Trace);

    assert_eq!(logger.write_to_console(), true);
}

#[test]
fn new_logger_should_not_write_to_file() {
    let logger = Logger::new(String::from("test"), LogLevel::Trace);

    assert_eq!(logger.write_to_file(), false);
}

#[test]
fn new_logger_should_keep_its_name_and_have_no_file() {
    let logger = Logger::new(String::from("test"), LogLevel::Trace);

    assert_eq!(logger.name(), "test");
    assert_eq!(logger.file_path(), None);
}

// Logger::new_default()

#[test]
fn new_default_logger_should_have_level_info() {
    let logger = Logger::new_default(String::from("test"));

    assert_eq!(logger.min_level(), LogLevel::Info);
}

#[test]
fn new_default_logger_should_write_to_console_only() {
    let mut logger = Logger::new_default(String::from("test"));

    assert_eq!(logger.name(), "test");
    assert_eq!(logger.write_to_console(), true);
    assert_eq!(logger.write_to_file(), false);
    assert_eq!(logger.file_path(), None);
    assert!(logger.take_pending().is_empty());
}

// Logger::new_to_file()

#[test]
fn new_logger_to_file_should_enable_write_to_file() {
    let logger = Logger::new_to_file(
        String::from("test"),
        LogLevel::Trace,
        String::from("test.log"),
        false,
    );

    assert_eq!(logger.write_to_file(), true);
}

#[test]
fn new_logger_to_file_which_also_writes_to_console_should_enable_write_to_console() {
    let logger = Logger::new_to_file(
        String::from("test"),
        LogLevel::Trace,
        String::from("test.log"),
        true,
    );

    assert_eq!(logger.write_to_console(), true);
}

#[test]
fn new_logger_to_file_which_does_not_write_to_console_should_disable_write_to_console() {
    let logger = Logger::new_to_file(
        String::from("test"),
        LogLevel::Trace,
        String::from("test.log"),
        false,
    );

    assert_eq!(logger.write_to_console(), false);
}

#[test]
fn new_logger_to_file_should_have_correct_min_level() {
    let logger = Logger::new_to_file(
        String::from("test"),
        LogLevel::Trace,
        String::from("test.log"),
        false,
    );

    assert_eq!(logger.min_level(), LogLevel::Trace);
}

#[test]
fn new_logger_to_file_should_keep_the_file_path() {
    let logger = Logger::new_to_file(
        String::from("test"),
        LogLevel::Trace,
        String::from("test.log"),
        false,
    );

    assert_eq!(logger.file_path(), Some("test.log"));
    assert_eq!(logger.name(), "test");
}

// Logger::get_colored_level_name()

#[test]
fn get_colored_level_name_should_return_correct_string_for_critical() {
    let level_name = Logger::get_colored_level_name(LogLevel::Critical);

    assert_eq!(level_name.to_colored(), "critical".red().bold());
}

#[test]
fn get_colored_level_name_should_hold_the_name_and_style_of_each_level() {
    for level in LEVELS {
        let level_name = Logger::get_colored_level_name(level);

        assert_eq!(level_name.text, level.to_string());
        assert_eq!(level_name.style, level.style());
    }
}

// Logger::get_colored_message()

#[test]
fn get_colored_message_should_return_correct_string_for_critical() {
    let message = Logger::get_colored_message(LogLevel::Critical, "test");

    assert_eq!(message.to_colored(), "test".red().bold());
}

#[test]
fn get_colored_message_should_hold_the_message_and_style_of_each_level() {
    for level in LEVELS {
        let message = Logger::get_colored_message(level, "disk full");

        assert_eq!(message.text, "disk full");
        assert_eq!(message.style, level.style());
    }
}

// Logger::log()

#[test]
fn log_should_return_false_if_level_is_below_min_level() {
    let mut logger = Logger::new(String::from("test"), LogLevel::Error);

    let result = logger.log(LogLevel::Debug, "test");

    assert_eq!(result, false);
}

#[test]
fn log_should_return_true_if_level_is_above_min_level() {
    let mut logger = Logger::new(String::from("test"), LogLevel::Debug);

    let result = logger.log(LogLevel::Error, "test");

    assert_eq!(result, true);
}

#[test]
fn log_should_return_true_if_level_is_equal_to_min_level() {
    let mut logger = Logger::new(String::from("test"), LogLevel::Error);

    let result = logger.log(LogLevel::Error, "test");

    assert_eq!(result, true);
}

#[test]
fn log_should_return_true_exactly_from_the_min_level_up() {
    for min_level in LEVELS {
        for level in LEVELS {
            let mut logger = Logger::new_to_file(
                String::from("test"),
                min_level,
                String::from("test.log"),
                true,
            );

            let result = logger.log(level, "test");

            assert_eq!(result, level.rank() >= min_level.rank());
            assert_eq!(result, level >= min_level);
            let pending = logger.take_pending();
            if result {
                assert_eq!(pending.len(), 2);
            } else {
                assert!(pending.is_empty());
            }
        }
    }
}

#[test]
fn log_below_min_level_should_change_nothing() {
    let mut logger = Logger::new_to_file(
        String::from("test"),
        LogLevel::Warning,
        String::from("test.log"),
        true,
    );
    assert!(logger.log(LogLevel::Warning, "kept"));

    assert!(!logger.log(LogLevel::Info, "dropped"));

    assert_eq!(logger.name(), "test");
    assert_eq!(logger.min_level(), LogLevel::Warning);
    assert_eq!(logger.write_to_console(), true);
    assert_eq!(logger.write_to_file(), true);
    assert_eq!(logger.file_path(), Some("test.log"));
    let pending = logger.take_pending();
    assert_eq!(pending.len(), 2);
    assert!(pending.iter().all(|record| record.text.contains("kept")));
}

#[test]
fn log_should_queue_the_file_line_before_the_console_line() {
    let mut logger = Logger::new_to_file(
        String::from("test"),
        LogLevel::Trace,
        String::from("test.log"),
        true,
    );

    assert!(logger.log(LogLevel::Info, "both"));

    let pending = logger.take_pending();
    assert_eq!(pending.len(), 2);
    assert_eq!(pending[0].sink, Sink::File);
    assert_eq!(pending[1].sink, Sink::Console);
}

#[test]
fn log_to_console_only_should_queue_one_console_line() {
    let mut logger = Logger::new(String::from("test"), LogLevel::Trace);

    assert!(logger.log(LogLevel::Info, "console"));

    let pending = logger.take_pending();
    assert_eq!(pending.len(), 1);
    assert_eq!(pending[0].sink, Sink::Console);
    assert!(pending[0].text.starts_with('['));
    assert!(pending[0].text.contains("] [test] ["));
    assert!(pending[0].text.contains("console"));
    assert!(pending[0].text.ends_with('\n'));
}

#[test]
fn log_to_file_only_should_queue_one_file_line_and_none_for_the_console() {
    let mut logger = Logger::new(String::from("test"), LogLevel::Info);
    logger.set_file_path(String::from("test.log"));
    logger.set_write_to_console(false);
    logger.set_write_to_file(true);

    assert!(!logger.log(LogLevel::Debug, "below"));
    assert!(logger.take_pending().is_empty());

    assert!(logger.log(LogLevel::Error, "passes"));
    let pending = logger.take_pending();
    assert_eq!(pending.len(), 1);
    assert_eq!(pending[0].sink, Sink::File);
    assert!(pending[0].text.ends_with("] [test] [error] passes\n"));
}

#[test]
fn log_with_both_destinations_off_should_return_true_and_queue_nothing() {
    let mut logger = Logger::new(String::from("test"), LogLevel::Info);
    logger.set_write_to_console(false);

    assert!(logger.log(LogLevel::Error, "nowhere"));

    assert!(logger.take_pending().is_empty());
}

#[test]
fn log_should_write_the_file_line_in_the_line_format() {
    let mut logger = Logger::new_to_file(
        String::from("svc"),
        LogLevel::Warning,
        String::from("svc.log"),
        false,
    );

    assert!(logger.log(LogLevel::Warning, "disk full"));

    let pending = logger.take_pending();
    assert_eq!(pending.len(), 1);
    let (stamp, rest) = split_stamp(&pending[0].text);
    assert!(is_timestamp(stamp), "not a timestamp: {}", stamp);
    assert_eq!(rest, " [svc] [warning] disk full\n");
}

#[test]
fn log_should_keep_a_message_with_brackets_and_line_feeds_as_given() {
    let mut logger = Logger::new_to_file(
        String::from("a] [b"),
        LogLevel::Trace,
        String::from("test.log"),
        false,
    );

    assert!(logger.log(LogLevel::Trace, "first\nsecond [x]"));

    let pending = logger.take_pending();
    let (stamp, rest) = split_stamp(&pending[0].text);
    assert!(is_timestamp(stamp));
    assert_eq!(rest, " [a] [b] [trace] first\nsecond [x]\n");
}

#[test]
fn log_should_accept_an_empty_name_and_message() {
    let mut logger = Logger::new_to_file(
        String::new(),
        LogLevel::Trace,
        String::from("test.log"),
        false,
    );

    assert!(logger.log(LogLevel::Critical, ""));

    let pending = logger.take_pending();
    let (stamp, rest) = split_stamp(&pending[0].text);
    assert!(is_timestamp(stamp));
    assert_eq!(rest, " [] [critical] \n");
}

#[test]
fn log_should_append_to_what_is_pending() {
    let mut logger = Logger::new_to_file(
        String::from("test"),
        LogLevel::Info,
        String::from("test.log"),
        false,
    );

    assert!(logger.log(LogLevel::Info, "one"));
    assert!(!logger.log(LogLevel::Debug, "two"));
    assert!(logger.log(LogLevel::Error, "three"));

    let pending = logger.take_pending();
    assert_eq!(pending.len(), 2);
    assert!(pending[0].text.ends_with("] [test] [info] one\n"));
    assert!(pending[1].text.ends_with("] [test] [error] three\n"));
}

#[test]
fn two_loggers_on_one_file_should_append_their_lines_in_order() {
    let mut file = String::from("earlier content\n");
    let carry = |records: Vec<Record>, file: &mut String| {
        for record in records {
            assert_eq!(record.sink, Sink::File);
            file.push_str(&record.text);
        }
    };

    let mut first = Logger::new_to_file(
        String::from("first"),
        LogLevel::Info,
        String::from("shared.log"),
        false,
    );
    assert!(first.info("info msg"));
    carry(first.take_pending(), &mut file);

    let mut second = Logger::new_to_file(
        String::from("second"),
        LogLevel::Info,
        String::from("shared.log"),
        false,
    );
    assert!(second.warning("second msg"));
    carry(second.take_pending(), &mut file);

    let lines: Vec<&str> = file.lines().collect();
    assert_eq!(lines.len(), 3);
    assert_eq!(lines[0], "earlier content");
    assert!(lines[1].contains("[info]"));
    assert!(lines[1].ends_with("] [first] [info] info msg"));
    assert!(lines[2].contains("[warning]"));
    assert!(lines[2].ends_with("] [second] [warning] second msg"));
    assert!(file.ends_with('\n'));
}

#[test]
fn log_should_stamp_each_line_with_a_year_then_date_time_and_milliseconds() {
    let mut logger = Logger::new_to_file(
        String::from("test"),
        LogLevel::Trace,
        String::from("test.log"),
        true,
    );
    assert!(logger.log(LogLevel::Info, "stamped"));

    for record in logger.take_pending() {
        let (stamp, _) = split_stamp(&record.text);
        let chars: Vec<char> = stamp.chars().collect();
        assert!(chars.len() >= 23);
        let (year, rest) = chars.split_at(chars.len() - 19);
        if year[0].is_ascii_digit() {
            assert_eq!(year.len(), 4);
        } else {
            assert!(year.len() >= 5 && (year[0] == '+' || year[0] == '-'));
        }
        assert!(year[1..].iter().all(|c| c.is_ascii_digit()));
        for (c, shape) in rest.iter().zip("-dd-dd dd:dd:dd.ddd".chars()) {
            if shape == 'd' {
                assert!(c.is_ascii_digit());
            } else {
                assert_eq!(*c, shape);
            }
        }
    }
}

// The per-level shortcuts

fn logged_by(level: LogLevel, logger: &mut Logger, message: &str) -> bool {
    match level {
        LogLevel::Trace => logger.trace(message),
        LogLevel::Debug => logger.debug(message),
        LogLevel::Info => logger.info(message),
        LogLevel::Warning => logger.warning(message),
        LogLevel::Error => logger.error(message),
        LogLevel::Critical => logger.critical(message),
    }
}

#[test]
fn shortcuts_should_do_what_log_does_at_their_level() {
    for min_level in LEVELS {
        for level in LEVELS {
            let mut by_log = Logger::new_to_file(
                String::from("test"),
                min_level,
                String::from("test.log"),
                false,
            );
            let mut by_shortcut = Logger::new_to_file(
                String::from("test"),
                min_level,
                String::from("test.log"),
                false,
            );

            let expected = by_log.log(level, "message");
            let result = logged_by(level, &mut by_shortcut, "message");

            assert_eq!(result, expected);
            let expected = by_log.take_pending();
            let pending = by_shortcut.take_pending();
            assert_eq!(pending.len(), expected.len());
            for (record, expected) in pending.iter().zip(expected.iter()) {
                assert_eq!(record.sink, expected.sink);
                assert_eq!(split_stamp(&record.text).1, split_stamp(&expected.text).1);
            }
        }
    }
}

#[test]
fn critical_should_always_be_logged() {
    for min_level in LEVELS {
        let mut logger = Logger::new(String::from("test"), min_level);

        assert!(logger.critical("test"));
    }
}

#[test]
fn info_should_be_held_back_by_a_higher_min_level() {
    let mut logger = Logger::new(String::from("test"), LogLevel::Warning);

    assert!(!logger.info("test"));
    assert!(!logger.debug("test"));
    assert!(!logger.trace("test"));
    assert!(logger.warning("test"));
    assert!(logger.error("test"));
}

// Setters

#[test]
fn set_min_level_should_change_the_gate_only() {
    let mut logger = Logger::new(String::from("test"), LogLevel::Error);
    assert!(!logger.log(LogLevel::Debug, "test"));

    logger.set_min_level(LogLevel::Debug);

    assert_eq!(logger.min_level(), LogLevel::Debug);
    assert_eq!(logger.name(), "test");
    assert_eq!(logger.write_to_console(), true);
    assert_eq!(logger.write_to_file(), false);
    assert_eq!(logger.file_path(), None);
    assert!(logger.log(LogLevel::Debug, "test"));
}

#[test]
fn set_write_to_console_should_toggle_console_output() {
    let mut logger = Logger::new(String::from("test"), LogLevel::Trace);

    logger.set_write_to_console(false);
    assert_eq!(logger.write_to_console(), false);
    assert!(logger.log(LogLevel::Info, "test"));
    assert!(logger.take_pending().is_empty());

    logger.set_write_to_console(true);
    assert_eq!(logger.write_to_console(), true);
    assert!(logger.log(LogLevel::Info, "test"));
    assert_eq!(logger.take_pending().len(), 1);
}

#[test]
fn set_write_to_file_should_toggle_file_output() {
    let mut logger = Logger::new_to_file(
        String::from("test"),
        LogLevel::Trace,
        String::from("test.log"),
        false,
    );

    logger.set_write_to_file(false);
    assert_eq!(logger.write_to_file(), false);
    assert_eq!(logger.file_path(), Some("test.log"));
    assert!(logger.log(LogLevel::Info, "test"));
    assert!(logger.take_pending().is_empty());

    logger.set_write_to_file(true);
    assert_eq!(logger.write_to_file(), true);
    assert!(logger.log(LogLevel::Info, "test"));
    assert_eq!(logger.take_pending().len(), 1);
}

#[test]
fn set_file_path_should_replace_the_path_and_leave_file_output_as_it_was() {
    let mut logger = Logger::new(String::from("test"), LogLevel::Trace);

    logger.set_file_path(String::from("one.log"));
    assert_eq!(logger.file_path(), Some("one.log"));
    assert_eq!(logger.write_to_file(), false);

    logger.set_write_to_file(true);
    logger.set_file_path(String::from("two.log"));
    assert_eq!(logger.file_path(), Some("two.log"));
    assert_eq!(logger.write_to_file(), true);
    assert_eq!(logger.write_to_console(), true);
}

// Logger::take_pending()

#[test]
fn take_pending_should_hand_out_each_record_once() {
    let mut logger = Logger::new(String::from("test"), LogLevel::Trace);
    assert!(logger.log(LogLevel::Info, "one"));
    assert!(logger.log(LogLevel::Info, "two"));

    let pending = logger.take_pending();

    assert_eq!(pending.len(), 2);
    assert!(pending[0].text.contains("one"));
    assert!(pending[1].text.contains("two"));
    assert!(logger.take_pending().is_empty());
    assert_eq!(logger.min_level(), LogLevel::Trace);
    assert_eq!(logger.write_to_console(), true);
}
