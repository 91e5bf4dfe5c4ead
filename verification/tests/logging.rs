use gnome_search_providers_jetbrains::logcontrol::{
    requested_level, requested_target, LogControl, LogControlError, LogController, LogLevel,
    LogTarget,
};
use gnome_search_providers_jetbrains::logging::{
    default_log_settings, from_log_level, log_target, max_log_level, to_log_level,
    tracing_target, LogDestination, TracingLevel, TracingTarget,
};

#[test]
fn levels_above_errors_are_not_supported() {
    assert_eq!(
        from_log_level(LogLevel::Emerg),
        Err(LogControlError::NotSupported(
            "Level emerg not supported, err is max level".to_string()
        ))
    );
    assert_eq!(
        from_log_level(LogLevel::Alert),
        Err(LogControlError::NotSupported(
            "Level alert not supported, err is max level".to_string()
        ))
    );
    assert_eq!(
        from_log_level(LogLevel::Crit),
        Err(LogControlError::NotSupported(
            "Level crit not supported, err is max level".to_string()
        ))
    );
}

#[test]
fn levels_map_to_tracing_levels() {
    assert_eq!(from_log_level(LogLevel::Error), Ok(TracingLevel::Error));
    assert_eq!(from_log_level(LogLevel::Warning), Ok(TracingLevel::Warn));
    assert_eq!(from_log_level(LogLevel::Notice), Ok(TracingLevel::Info));
    assert_eq!(from_log_level(LogLevel::Info), Ok(TracingLevel::Debug));
    assert_eq!(from_log_level(LogLevel::Debug), Ok(TracingLevel::Trace));
}

#[test]
fn tracing_levels_round_trip() {
    for level in [
        TracingLevel::Error,
        TracingLevel::Warn,
        TracingLevel::Info,
        TracingLevel::Debug,
        TracingLevel::Trace,
    ] {
        assert_eq!(from_log_level(to_log_level(level)), Ok(level));
    }
    assert_eq!(to_log_level(TracingLevel::Info), LogLevel::Notice);
}

#[test]
fn targets_map_to_tracing_targets() {
    assert_eq!(tracing_target(LogTarget::Journal, false), Ok(TracingTarget::Journal));
    assert_eq!(tracing_target(LogTarget::Console, true), Ok(TracingTarget::Console));
    assert_eq!(tracing_target(LogTarget::Null, true), Ok(TracingTarget::Null));
    assert_eq!(tracing_target(LogTarget::Auto, true), Ok(TracingTarget::Journal));
    assert_eq!(tracing_target(LogTarget::Auto, false), Ok(TracingTarget::Console));
    assert_eq!(log_target(TracingTarget::Null), LogTarget::Null);
    assert_eq!(log_target(TracingTarget::Journal), LogTarget::Journal);
    assert_eq!(log_target(TracingTarget::Console), LogTarget::Console);
}

#[test]
fn kernel_and_syslog_targets_are_not_supported() {
    assert_eq!(
        tracing_target(LogTarget::Kmsg, true),
        Err(LogControlError::NotSupported(
            "Log target kmsg not supported, use auto, console, journal or null".to_string()
        ))
    );
    assert_eq!(
        tracing_target(LogTarget::Syslog, false),
        Err(LogControlError::NotSupported(
            "Log target syslog not supported, use auto, console, journal or null".to_string()
        ))
    );
}

#[test]
fn logging_starts_with_defaults() {
    assert_eq!(
        default_log_settings(true, false),
        (TracingTarget::Journal, TracingLevel::Info)
    );
    assert_eq!(
        default_log_settings(false, true),
        (TracingTarget::Console, TracingLevel::Trace)
    );
}

#[test]
fn requests_name_levels_and_targets() {
    assert_eq!(requested_level("notice"), Ok(LogLevel::Notice));
    assert_eq!(
        requested_level("loud"),
        Err(LogControlError::InvalidArgs(
            "Unknown log level: loud".to_string()
        ))
    );
    assert_eq!(requested_target("journal"), Ok(LogTarget::Journal));
    assert_eq!(
        requested_target("paper"),
        Err(LogControlError::InvalidArgs(
            "Unknown log target: paper".to_string()
        ))
    );
}

struct Recorder {
    level: LogLevel,
    target: LogTarget,
    calls: usize,
}

impl LogController for Recorder {
    fn level(&self) -> LogLevel {
        self.level
    }

    fn set_level(&mut self, level: LogLevel) -> Result<(), LogControlError> {
        self.calls += 1;
        from_log_level(level)?;
        self.level = level;
        Ok(())
    }

    fn target(&self) -> LogTarget {
        self.target
    }

    fn set_target(&mut self, target: LogTarget) -> Result<(), LogControlError> {
        self.calls += 1;
        self.target = log_target(tracing_target(target, false)?);
        Ok(())
    }
}

#[test]
fn log_control_asks_controller_for_known_values_only() {
    let mut control = LogControl::new(Recorder {
        level: LogLevel::Info,
        target: LogTarget::Console,
        calls: 0,
    });
    assert_eq!(control.log_level(), "info");
    assert_eq!(control.log_target(), "console");
    assert_eq!(control.set_log_level("debug".to_string()), Ok(()));
    assert_eq!(control.log_level(), "debug");
    assert_eq!(
        control.set_log_level("verbose".to_string()),
        Err(LogControlError::InvalidArgs(
            "Unknown log level: verbose".to_string()
        ))
    );
    assert_eq!(control.log_level(), "debug");
    assert!(matches!(
        control.set_log_level("emerg".to_string()),
        Err(LogControlError::NotSupported(_))
    ));
    assert_eq!(control.set_log_target("auto".to_string()), Ok(()));
    assert_eq!(control.log_target(), "console");
    assert_eq!(
        control.set_log_target("printer".to_string()),
        Err(LogControlError::InvalidArgs(
            "Unknown log target: printer".to_string()
        ))
    );
    assert!(matches!(
        control.set_log_target("kmsg".to_string()),
        Err(LogControlError::NotSupported(_))
    ));
}

#[test]
fn maximum_level_by_destination() {
    assert_eq!(
        max_log_level(LogDestination::Journal, false),
        Some(TracingLevel::Info)
    );
    assert_eq!(max_log_level(LogDestination::Stdout, false), None);
    assert_eq!(
        max_log_level(LogDestination::Journal, true),
        Some(TracingLevel::Debug)
    );
    assert_eq!(
        max_log_level(LogDestination::Stdout, true),
        Some(TracingLevel::Debug)
    );
}
