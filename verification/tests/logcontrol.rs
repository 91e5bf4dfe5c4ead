use gnome_search_providers_jetbrains::logcontrol::{
    LogLevel, LogLevelParseError, LogTarget, LogTargetParseError,
};

#[test]
fn log_levels_are_read_from_their_names() {
    assert_eq!(LogLevel::try_from("emerg"), Ok(LogLevel::Emerg));
    assert_eq!(LogLevel::try_from("alert"), Ok(LogLevel::Alert));
    assert_eq!(LogLevel::try_from("crit"), Ok(LogLevel::Crit));
    assert_eq!(LogLevel::try_from("err"), Ok(LogLevel::Error));
    assert_eq!(LogLevel::try_from("warning"), Ok(LogLevel::Warning));
    assert_eq!(LogLevel::try_from("notice"), Ok(LogLevel::Notice));
    assert_eq!(LogLevel::try_from("info"), Ok(LogLevel::Info));
    assert_eq!(LogLevel::try_from("debug"), Ok(LogLevel::Debug));
}

#[test]
fn unknown_log_levels_are_rejected() {
    assert_eq!(
        LogLevel::try_from("error"),
        Err(LogLevelParseError::InvalidLogLevel)
    );
    assert_eq!(
        LogLevel::try_from("Debug"),
        Err(LogLevelParseError::InvalidLogLevel)
    );
    assert_eq!(LogLevel::try_from(""), Err(LogLevelParseError::InvalidLogLevel));
    assert_eq!(
        LogLevel::try_from("info "),
        Err(LogLevelParseError::InvalidLogLevel)
    );
}

#[test]
fn log_levels_round_trip() {
    let levels = [
        LogLevel::Emerg,
        LogLevel::Alert,
        LogLevel::Crit,
        LogLevel::Error,
        LogLevel::Warning,
        LogLevel::Notice,
        LogLevel::Info,
        LogLevel::Debug,
    ];
    for level in levels {
        assert_eq!(LogLevel::try_from(level.to_string().as_str()), Ok(level));
        assert_eq!(LogLevel::try_from(level.as_str()), Ok(level));
    }
    assert_eq!(LogLevel::Error.to_string(), "err");
    assert_eq!(LogLevel::Warning.to_string(), "warning");
}

#[test]
fn log_targets_are_read_from_their_names() {
    assert_eq!(LogTarget::try_from("console"), Ok(LogTarget::Console));
    assert_eq!(LogTarget::try_from("kmsg"), Ok(LogTarget::Kmsg));
    assert_eq!(LogTarget::try_from("journal"), Ok(LogTarget::Journal));
    assert_eq!(LogTarget::try_from("syslog"), Ok(LogTarget::Syslog));
    assert_eq!(LogTarget::try_from("null"), Ok(LogTarget::Null));
    assert_eq!(LogTarget::try_from("auto"), Ok(LogTarget::Auto));
}

#[test]
fn unknown_log_targets_are_rejected() {
    assert_eq!(
        LogTarget::try_from("stdout"),
        Err(LogTargetParseError::InvalidLogTarget)
    );
    assert_eq!(
        LogTarget::try_from(""),
        Err(LogTargetParseError::InvalidLogTarget)
    );
}

#[test]
fn log_targets_round_trip() {
    let targets = [
        LogTarget::Console,
        LogTarget::Kmsg,
        LogTarget::Journal,
        LogTarget::Syslog,
        LogTarget::Null,
        LogTarget::Auto,
    ];
    for target in targets {
        assert_eq!(LogTarget::try_from(target.to_string().as_str()), Ok(target));
    }
    assert_eq!(LogTarget::Journal.to_string(), "journal");
}
