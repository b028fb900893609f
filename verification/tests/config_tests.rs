use tcprobe::config::{select_mode, to_duration, to_log_level, LogLevel, Mode};
use tcprobe::errors::ConfigError;

#[test]
fn log_level_full_names() {
    assert_eq!(to_log_level("off"), Ok(LogLevel::Off));
    assert_eq!(to_log_level("error"), Ok(LogLevel::Error));
    assert_eq!(to_log_level("warn"), Ok(LogLevel::Warn));
    assert_eq!(to_log_level("info"), Ok(LogLevel::Info));
    assert_eq!(to_log_level("debug"), Ok(LogLevel::Debug));
    assert_eq!(to_log_level("trace"), Ok(LogLevel::Trace));
}

#[test]
fn log_level_short_names() {
    assert_eq!(to_log_level("o"), Ok(LogLevel::Off));
    assert_eq!(to_log_level("e"), Ok(LogLevel::Error));
    assert_eq!(to_log_level("w"), Ok(LogLevel::Warn));
    assert_eq!(to_log_level("i"), Ok(LogLevel::Info));
    assert_eq!(to_log_level("d"), Ok(LogLevel::Debug));
    assert_eq!(to_log_level("t"), Ok(LogLevel::Trace));
}

#[test]
fn log_level_rejects_unknown() {
    assert_eq!(to_log_level(""), Err(ConfigError::UnknownLogLevel));
    assert_eq!(to_log_level("verbose"), Err(ConfigError::UnknownLogLevel));
    assert_eq!(to_log_level("Info"), Err(ConfigError::UnknownLogLevel));
    assert_eq!(to_log_level("inf"), Err(ConfigError::UnknownLogLevel));
}

#[test]
fn duration_plain_seconds() {
    assert_eq!(to_duration(""), Ok(0));
    assert_eq!(to_duration("0"), Ok(0));
    assert_eq!(to_duration("90"), Ok(90));
    assert_eq!(to_duration("5s"), Ok(5));
}

#[test]
fn duration_units() {
    assert_eq!(to_duration("2m"), Ok(120));
    assert_eq!(to_duration("1h"), Ok(3600));
    assert_eq!(to_duration("1d"), Ok(86400));
    assert_eq!(to_duration("1w"), Ok(604800));
}

#[test]
fn duration_groups_sum() {
    assert_eq!(to_duration("2h30m"), Ok(9000));
    assert_eq!(to_duration("5m30"), Ok(330));
    assert_eq!(to_duration("1w1d1h1m1s"), Ok(604800 + 86400 + 3600 + 60 + 1));
}

#[test]
fn duration_rejects_malformed() {
    assert_eq!(to_duration("s"), Err(ConfigError::MalformedDuration));
    assert_eq!(to_duration("5x"), Err(ConfigError::MalformedDuration));
    assert_eq!(to_duration("5mm"), Err(ConfigError::MalformedDuration));
    assert_eq!(to_duration("m5"), Err(ConfigError::MalformedDuration));
    assert_eq!(to_duration("5 s"), Err(ConfigError::MalformedDuration));
}

#[test]
fn duration_rejects_too_large() {
    assert_eq!(to_duration("18446744073709551615"), Ok(u64::MAX));
    assert_eq!(
        to_duration("18446744073709551616"),
        Err(ConfigError::DurationTooLarge)
    );
    assert_eq!(
        to_duration("99999999999999999999s"),
        Err(ConfigError::DurationTooLarge)
    );
    assert_eq!(
        to_duration("30000000000000000000w"),
        Err(ConfigError::DurationTooLarge)
    );
}

#[test]
fn mode_selection() {
    assert_eq!(select_mode(true, false), Ok(Mode::Server));
    assert_eq!(select_mode(false, true), Ok(Mode::Client));
    assert_eq!(select_mode(true, true), Ok(Mode::Server));
    assert_eq!(select_mode(false, false), Err(ConfigError::NoModeSelected));
}
