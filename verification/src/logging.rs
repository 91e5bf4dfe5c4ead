//! Logging setup: how the levels and targets of the log control interface map to
//! those of the tracing framework.

use crate::logcontrol::{level_name, target_name, LogControlError, LogLevel, LogTarget};
use vstd::prelude::*;

verus! {

/// Where to log to.
#[derive(Debug, PartialEq, Eq, Copy, Clone)]
pub enum LogDestination {
    /// Standard output.
    Stdout,
    /// The systemd journal.
    Journal,
}

/// The maximum level to set for logging to the given destination, if one is to be
/// set: debug where debug messages are asked for, and else information for the
/// journal.  On standard output the filter of the logger decides then.
pub fn max_log_level(destination: LogDestination, debug: bool) -> (level: Option<TracingLevel>)
    ensures
        level == if debug {
            Some(TracingLevel::Debug)
        } else {
            match destination {
                LogDestination::Journal => Some(TracingLevel::Info),
                LogDestination::Stdout => None,
            }
        },
{
    if debug {
        Some(TracingLevel::Debug)
    } else {
        match destination {
            LogDestination::Journal => Some(TracingLevel::Info),
            LogDestination::Stdout => None,
        }
    }
}

/// A level of the tracing framework.
#[derive(Debug, Copy, Clone, PartialEq, Eq)]
pub enum TracingLevel {
    Error,
    Warn,
    Info,
    Debug,
    Trace,
}

/// Log targets supported by tracing.
#[derive(Debug, Copy, Clone, PartialEq, Eq)]
pub enum TracingTarget {
    /// No logging.
    Null,
    /// Denotes the journal handler.
    Journal,
    /// Denotes the fmt handler, with pretty format on stdout.
    Console,
}

/// The tracing level for a systemd log level, if tracing has one for it.
///
/// Tracing lacks a level for everything above errors, and a level between
/// warnings and information, so that from `notice` on the systemd levels lie one
/// below their namesakes.
pub open spec fn tracing_level_of(level: LogLevel) -> Option<TracingLevel> {
    match level {
        LogLevel::Emerg | LogLevel::Alert | LogLevel::Crit => None,
        LogLevel::Error => Some(TracingLevel::Error),
        LogLevel::Warning => Some(TracingLevel::Warn),
        LogLevel::Notice => Some(TracingLevel::Info),
        LogLevel::Info => Some(TracingLevel::Debug),
        LogLevel::Debug => Some(TracingLevel::Trace),
    }
}

/// The systemd log level for a tracing level.
pub open spec fn log_level_of(level: TracingLevel) -> LogLevel {
    match level {
        TracingLevel::Error => LogLevel::Error,
        TracingLevel::Warn => LogLevel::Warning,
        TracingLevel::Info => LogLevel::Notice,
        TracingLevel::Debug => LogLevel::Info,
        TracingLevel::Trace => LogLevel::Debug,
    }
}

/// The message that tells that tracing has no level for the given level.
pub open spec fn unsupported_level_message(level: LogLevel) -> Seq<char> {
    "Level "@ + level_name(level) + " not supported, "@ + level_name(LogLevel::Error)
        + " is max level"@
}

/// Convert a systemd log level to a tracing log level.
///
/// Return an error if the systemd log level is not supported.
pub fn from_log_level(level: LogLevel) -> (converted: Result<TracingLevel, LogControlError>)
    ensures
        match tracing_level_of(level) {
            Some(tracing_level) => converted == Ok::<TracingLevel, LogControlError>(tracing_level),
            None => match converted {
                Err(LogControlError::NotSupported(message)) => message@
                    == unsupported_level_message(level),
                _ => false,
            },
        },
{
    match level {
        LogLevel::Emerg | LogLevel::Alert | LogLevel::Crit => {
            let mut message = "Level ".to_owned();
            message.append(level.as_str());
            message.append(" not supported, ");
            message.append(LogLevel::Error.as_str());
            message.append(" is max level");
            Err(LogControlError::NotSupported(message))
        },
        LogLevel::Error => Ok(TracingLevel::Error),
        LogLevel::Warning => Ok(TracingLevel::Warn),
        LogLevel::Notice => Ok(TracingLevel::Info),
        LogLevel::Info => Ok(TracingLevel::Debug),
        LogLevel::Debug => Ok(TracingLevel::Trace),
    }
}

/// Convert a tracing level to a systemd log level.
pub fn to_log_level(level: TracingLevel) -> (converted: LogLevel)
    ensures
        converted == log_level_of(level),
        tracing_level_of(converted) == Some(level),
{
    match level {
        TracingLevel::Error => LogLevel::Error,
        TracingLevel::Warn => LogLevel::Warning,
        TracingLevel::Info => LogLevel::Notice,
        TracingLevel::Debug => LogLevel::Info,
        TracingLevel::Trace => LogLevel::Debug,
    }
}

/// The log target that a tracing target stands for.
pub fn log_target(target: TracingTarget) -> (converted: LogTarget)
    ensures
        converted == match target {
            TracingTarget::Null => LogTarget::Null,
            TracingTarget::Journal => LogTarget::Journal,
            TracingTarget::Console => LogTarget::Console,
        },
{
    match target {
        TracingTarget::Null => LogTarget::Null,
        TracingTarget::Journal => LogTarget::Journal,
        TracingTarget::Console => LogTarget::Console,
    }
}

/// The tracing target for a log target, if tracing supports the target.  The
/// automatic target is the journal where the process is connected to it, and the
/// console elsewhere.
pub open spec fn tracing_target_of(target: LogTarget, connected_to_journal: bool) -> Option<
    TracingTarget,
> {
    match target {
        LogTarget::Kmsg | LogTarget::Syslog => None,
        LogTarget::Auto => if connected_to_journal {
            Some(TracingTarget::Journal)
        } else {
            Some(TracingTarget::Console)
        },
        LogTarget::Journal => Some(TracingTarget::Journal),
        LogTarget::Null => Some(TracingTarget::Null),
        LogTarget::Console => Some(TracingTarget::Console),
    }
}

/// The message that tells that tracing does not support the given target.
pub open spec fn unsupported_target_message(target: LogTarget) -> Seq<char> {
    "Log target "@ + target_name(target) + " not supported, use "@ + target_name(LogTarget::Auto)
        + ", "@ + target_name(LogTarget::Console) + ", "@ + target_name(LogTarget::Journal)
        + " or "@ + target_name(LogTarget::Null)
}

/// Find the tracing target to use for the given log target.
///
/// Return an error if tracing does not support the target.
pub fn tracing_target(target: LogTarget, connected_to_journal: bool) -> (converted: Result<
    TracingTarget,
    LogControlError,
>)
    ensures
        match tracing_target_of(target, connected_to_journal) {
            Some(found) => converted == Ok::<TracingTarget, LogControlError>(found),
            None => match converted {
                Err(LogControlError::NotSupported(message)) => message@
                    == unsupported_target_message(target),
                _ => false,
            },
        },
{
    match target {
        LogTarget::Kmsg | LogTarget::Syslog => {
            let mut message = "Log target ".to_owned();
            message.append(target.as_str());
            message.append(" not supported, use ");
            message.append(LogTarget::Auto.as_str());
            message.append(", ");
            message.append(LogTarget::Console.as_str());
            message.append(", ");
            message.append(LogTarget::Journal.as_str());
            message.append(" or ");
            message.append(LogTarget::Null.as_str());
            Err(LogControlError::NotSupported(message))
        },
        LogTarget::Auto => if connected_to_journal {
            Ok(TracingTarget::Journal)
        } else {
            Ok(TracingTarget::Console)
        },
        LogTarget::Journal => Ok(TracingTarget::Journal),
        LogTarget::Null => Ok(TracingTarget::Null),
        LogTarget::Console => Ok(TracingTarget::Console),
    }
}

/// The target and the level that logging starts with: the journal where the process
/// is connected to it and the console elsewhere; the lowest level where a filter is
/// set in the environment, so that the filter decides, and information elsewhere.
pub fn default_log_settings(connected_to_journal: bool, filter_in_environment: bool) -> (settings: (
    TracingTarget,
    TracingLevel,
))
    ensures
        settings.0 == if connected_to_journal {
            TracingTarget::Journal
        } else {
            TracingTarget::Console
        },
        settings.1 == if filter_in_environment {
            TracingLevel::Trace
        } else {
            TracingLevel::Info
        },
{
    let target = if connected_to_journal {
        TracingTarget::Journal
    } else {
        TracingTarget::Console
    };
    let level = if filter_in_environment {
        TracingLevel::Trace
    } else {
        TracingLevel::Info
    };
    (target, level)
}

} // verus!
