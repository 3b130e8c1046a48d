use leveled_logger::level::{level_from_number, LogLevel};
use leveled_logger::logger::{format_line, Logger, WriteAction};

#[test]
fn rank_is_strictly_increasing() {
    assert_eq!(LogLevel::Verbose.rank(), 1);
    assert_eq!(LogLevel::Info.rank(), 2);
    assert_eq!(LogLevel::Debug.rank(), 3);
    assert_eq!(LogLevel::Warn.rank(), 4);
    assert_eq!(LogLevel::Error.rank(), 5);
}

#[test]
fn names_are_canonical_uppercase() {
    assert_eq!(LogLevel::Verbose.to_string(), "VERBOSE");
    assert_eq!(LogLevel::Info.to_string(), "INFO");
    assert_eq!(LogLevel::Debug.to_string(), "DEBUG");
    assert_eq!(LogLevel::Warn.to_string(), "WARN");
    assert_eq!(LogLevel::Error.to_string(), "ERROR");
}

#[test]
fn numeric_verbosity_mapping() {
    assert_eq!(level_from_number(5), LogLevel::Error);
    assert_eq!(level_from_number(4), LogLevel::Warn);
    assert_eq!(level_from_number(3), LogLevel::Debug);
    assert_eq!(level_from_number(2), LogLevel::Info);
    assert_eq!(level_from_number(1), LogLevel::Verbose);
    assert_eq!(level_from_number(0), LogLevel::Verbose);
    assert_eq!(level_from_number(255), LogLevel::Verbose);
}

#[test]
fn default_is_console_at_verbose() {
    assert_eq!(
        Logger::default(),
        Logger::Console { verbosity: LogLevel::Verbose }
    );
}

#[test]
fn line_format_is_exact() {
    assert_eq!(format_line(LogLevel::Warn, "x"), "[WARN]: x\n");
    assert_eq!(format_line(LogLevel::Verbose, ""), "[VERBOSE]: \n");
    assert_eq!(format_line(LogLevel::Error, "boom"), "[ERROR]: boom\n");
}

#[test]
fn filter_boundary_is_inclusive() {
    let l = Logger::Console { verbosity: LogLevel::Warn };
    assert_eq!(l.debug("below"), WriteAction::Nothing);
    assert_eq!(
        l.warn("at"),
        WriteAction::Console { level: LogLevel::Warn, message: String::from("at") }
    );
    assert_eq!(
        l.error("above"),
        WriteAction::Console { level: LogLevel::Error, message: String::from("above") }
    );
}

#[test]
fn error_cannot_be_suppressed_short_of_discard() {
    let l = Logger::Console { verbosity: LogLevel::Error };
    assert_eq!(l.warn("w"), WriteAction::Nothing);
    assert_eq!(
        l.error("e"),
        WriteAction::Console { level: LogLevel::Error, message: String::from("e") }
    );
    assert_eq!(Logger::Discard.error("e"), WriteAction::Nothing);
}

#[test]
fn discard_drops_every_severity() {
    let l = Logger::Discard;
    assert_eq!(l.verbose("a"), WriteAction::Nothing);
    assert_eq!(l.info("a"), WriteAction::Nothing);
    assert_eq!(l.debug("a"), WriteAction::Nothing);
    assert_eq!(l.warn("a"), WriteAction::Nothing);
    assert_eq!(l.error("a"), WriteAction::Nothing);
}

#[test]
fn file_write_carries_path_and_full_line() {
    let l = Logger::File {
        verbosity: LogLevel::Verbose,
        file_path: String::from("app.log"),
    };
    assert_eq!(
        l.info("hello"),
        WriteAction::AppendToFile {
            path: String::from("app.log"),
            line: String::from("[INFO]: hello\n"),
        }
    );
}

#[test]
fn dir_write_carries_directory_and_full_line() {
    let l = Logger::Dir {
        verbosity: LogLevel::Debug,
        dir_path: String::from("logs"),
    };
    assert_eq!(
        l.error("disk"),
        WriteAction::AppendInDir {
            dir_path: String::from("logs"),
            line: String::from("[ERROR]: disk\n"),
        }
    );
    assert_eq!(l.info("quiet"), WriteAction::Nothing);
}

#[test]
fn set_verbosity_keeps_destination() {
    let mut l = Logger::File {
        verbosity: LogLevel::Verbose,
        file_path: String::from("app.log"),
    };
    l.set_verbosity(LogLevel::Error);
    assert_eq!(
        l,
        Logger::File { verbosity: LogLevel::Error, file_path: String::from("app.log") }
    );
}

#[test]
fn set_verbosity_on_discard_is_a_noop() {
    let mut l = Logger::Discard;
    l.set_verbosity(LogLevel::Error);
    assert_eq!(l, Logger::Discard);
}

#[test]
fn two_writes_each_carry_their_own_intact_line() {
    let l = Logger::File {
        verbosity: LogLevel::Verbose,
        file_path: String::from("app.log"),
    };
    let first = l.verbose("a");
    let second = l.verbose("b");
    assert_eq!(
        first,
        WriteAction::AppendToFile {
            path: String::from("app.log"),
            line: String::from("[VERBOSE]: a\n"),
        }
    );
    assert_eq!(
        second,
        WriteAction::AppendToFile {
            path: String::from("app.log"),
            line: String::from("[VERBOSE]: b\n"),
        }
    );
}
