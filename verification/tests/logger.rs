use blackout::clock::{log_timestamp, run_timestamp};
use blackout::logger::{format_log, logger_main, Log, LogLevel, LoggerAction};

#[test]
fn a_level_fills_five_characters() {
    assert_eq!(LogLevel::Info.label(), "Info ");
    assert_eq!(LogLevel::Error.label(), "Error");
}

#[test]
fn an_entry_goes_to_the_default_log() {
    let log = Log::entry(LogLevel::Info, "main".to_string(), "Process started.".to_string());
    assert_eq!(
        log,
        Log {
            to: None,
            level: Some(LogLevel::Info),
            from: "main".to_string(),
            body: "Process started.".to_string(),
        }
    );
}

#[test]
fn an_external_entry_names_its_log() {
    let log = Log::external("audit".to_string(), "backup".to_string(), "done".to_string());
    assert_eq!(
        log,
        Log { to: Some("audit".to_string()), level: None, from: "backup".to_string(), body: "done".to_string() }
    );
}

#[test]
fn a_line_holds_time_level_writer_and_message() {
    let log = Log::entry(LogLevel::Info, "main".to_string(), "Process started.".to_string());
    assert_eq!(
        format_log("2024-01-31T23:59:59.123", &log),
        "2024-01-31T23:59:59.123 | Info  | main            : Process started."
    );
    let log = Log::entry(LogLevel::Error, "mouse".to_string(), "Error getting mouse position!".to_string());
    assert_eq!(
        format_log("2024-01-31T23:59:59.123", &log),
        "2024-01-31T23:59:59.123 | Error | mouse           : Error getting mouse position!"
    );
}

#[test]
fn a_line_without_a_level_leaves_it_out() {
    let log = Log::external("audit".to_string(), "backup".to_string(), "done".to_string());
    assert_eq!(format_log("T", &log), "T | backup          : done");
}

#[test]
fn a_long_writer_is_not_cut() {
    let log = Log::entry(LogLevel::Info, "a-very-long-writer-name".to_string(), "x".to_string());
    assert_eq!(format_log("T", &log), "T | Info  | a-very-long-writer-name : x");
}

#[test]
fn the_end_of_the_log_stops_the_loop() {
    assert_eq!(logger_main("blackout", None), LoggerAction::Stop);
}

#[test]
fn an_entry_is_appended_to_its_file() {
    let log = Log::entry(LogLevel::Info, "main".to_string(), "Process started.".to_string());
    match logger_main("blackout", Some(log)) {
        LoggerAction::Append { file, line } => {
            assert_eq!(file, "blackout.log");
            assert!(line.ends_with(" | Info  | main            : Process started."));
            let stamp = &line[..line.len() - " | Info  | main            : Process started.".len()];
            assert_eq!(stamp.len(), 23);
            assert_eq!(&stamp[4..5], "-");
            assert_eq!(&stamp[10..11], "T");
            assert_eq!(&stamp[19..20], ".");
        }
        LoggerAction::Stop => panic!("an entry does not stop the loop"),
    }
    let log = Log::external("audit".to_string(), "backup".to_string(), "done".to_string());
    match logger_main("blackout", Some(log)) {
        LoggerAction::Append { file, line } => {
            assert_eq!(file, "audit.log");
            assert!(line.ends_with(" | backup          : done"));
        }
        LoggerAction::Stop => panic!("an entry does not stop the loop"),
    }
}

#[test]
fn the_time_of_a_run_has_date_and_time() {
    let stamp = run_timestamp();
    assert_eq!(stamp.len(), 15);
    for (at, c) in stamp.chars().enumerate() {
        if at == 8 {
            assert_eq!(c, '_');
        } else {
            assert!(c.is_ascii_digit(), "{:?} in {}", c, stamp);
        }
    }
}

#[test]
fn the_time_of_a_log_line_has_milliseconds() {
    let stamp = log_timestamp();
    assert_eq!(stamp.len(), 23);
    for (at, c) in stamp.chars().enumerate() {
        match at {
            4 | 7 => assert_eq!(c, '-'),
            10 => assert_eq!(c, 'T'),
            13 | 16 => assert_eq!(c, ':'),
            19 => assert_eq!(c, '.'),
            _ => assert!(c.is_ascii_digit(), "{:?} in {}", c, stamp),
        }
    }
}
