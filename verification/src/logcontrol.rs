//! Control logging with systemd.
//!
//! See <https://www.freedesktop.org/software/systemd/man/org.freedesktop.LogControl1.html>.

use crate::text::str_eq;
use vstd::prelude::*;

verus! {

/// A syslog log level as used by the systemd log control interface.
#[derive(Debug, Copy, Clone, PartialEq, Eq)]
pub enum LogLevel {
    Emerg,
    Alert,
    Crit,
    Error,
    Warning,
    Notice,
    Info,
    Debug,
}

/// Why a text is no log level.
#[derive(Debug, Copy, Clone, PartialEq, Eq)]
pub enum LogLevelParseError {
    InvalidLogLevel,
}

/// The name of a log level on the log control interface.
pub open spec fn level_name(level: LogLevel) -> Seq<char> {
    match level {
        LogLevel::Emerg => "emerg"@,
        LogLevel::Alert => "alert"@,
        LogLevel::Crit => "crit"@,
        LogLevel::Error => "err"@,
        LogLevel::Warning => "warning"@,
        LogLevel::Notice => "notice"@,
        LogLevel::Info => "info"@,
        LogLevel::Debug => "debug"@,
    }
}

/// The log level with the given name, if there is one.
pub open spec fn level_named(name: Seq<char>) -> Option<LogLevel> {
    if name == "emerg"@ {
        Some(LogLevel::Emerg)
    } else if name == "alert"@ {
        Some(LogLevel::Alert)
    } else if name == "crit"@ {
        Some(LogLevel::Crit)
    } else if name == "err"@ {
        Some(LogLevel::Error)
    } else if name == "warning"@ {
        Some(LogLevel::Warning)
    } else if name == "notice"@ {
        Some(LogLevel::Notice)
    } else if name == "info"@ {
        Some(LogLevel::Info)
    } else if name == "debug"@ {
        Some(LogLevel::Debug)
    } else {
        None
    }
}

impl LogLevel {
    /// Read a log level from its name.
    pub fn try_from(value: &str) -> (level: Result<LogLevel, LogLevelParseError>)
        ensures
            level == match level_named(value@) {
                Some(found) => Ok::<LogLevel, LogLevelParseError>(found),
                None => Err(LogLevelParseError::InvalidLogLevel),
            },
    {
        if str_eq(value, "emerg") {
            Ok(LogLevel::Emerg)
        } else if str_eq(value, "alert") {
            Ok(LogLevel::Alert)
        } else if str_eq(value, "crit") {
            Ok(LogLevel::Crit)
        } else if str_eq(value, "err") {
            Ok(LogLevel::Error)
        } else if str_eq(value, "warning") {
            Ok(LogLevel::Warning)
        } else if str_eq(value, "notice") {
            Ok(LogLevel::Notice)
        } else if str_eq(value, "info") {
            Ok(LogLevel::Info)
        } else if str_eq(value, "debug") {
            Ok(LogLevel::Debug)
        } else {
            Err(LogLevelParseError::InvalidLogLevel)
        }
    }

    /// The name of this log level.
    pub fn as_str(&self) -> (name: &'static str)
        ensures
            name@ == level_name(*self),
    {
        match self {
            LogLevel::Emerg => "emerg",
            LogLevel::Alert => "alert",
            LogLevel::Crit => "crit",
            LogLevel::Error => "err",
            LogLevel::Warning => "warning",
            LogLevel::Notice => "notice",
            LogLevel::Info => "info",
            LogLevel::Debug => "debug",
        }
    }

    /// The name of this log level, as a string of its own.
    pub fn to_string(&self) -> (name: String)
        ensures
            name@ == level_name(*self),
    {
        self.as_str().to_owned()
    }
}

/// Every log level is read back from its name.
pub proof fn level_name_round_trip(level: LogLevel)
    ensures
        level_named(level_name(level)) == Some(level),
{
    reveal_strlit("emerg");
    reveal_strlit("alert");
    reveal_strlit("crit");
    reveal_strlit("err");
    reveal_strlit("warning");
    reveal_strlit("notice");
    reveal_strlit("info");
    reveal_strlit("debug");
    assert("alert"@[0] != "emerg"@[0]);
    assert("crit"@[0] != "emerg"@[0]);
    assert("crit"@[0] != "alert"@[0]);
    assert("err"@[1] != "emerg"@[1]);
    assert("err"@[0] != "alert"@[0]);
    assert("err"@[0] != "crit"@[0]);
    assert("warning"@[0] != "emerg"@[0]);
    assert("warning"@[0] != "alert"@[0]);
    assert("warning"@[0] != "crit"@[0]);
    assert("warning"@[0] != "err"@[0]);
    assert("notice"@[0] != "emerg"@[0]);
    assert("notice"@[0] != "alert"@[0]);
    assert("notice"@[0] != "crit"@[0]);
    assert("notice"@[0] != "err"@[0]);
    assert("notice"@[0] != "warning"@[0]);
    assert("info"@[0] != "emerg"@[0]);
    assert("info"@[0] != "alert"@[0]);
    assert("info"@[0] != "crit"@[0]);
    assert("info"@[0] != "err"@[0]);
    assert("info"@[0] != "warning"@[0]);
    assert("info"@[0] != "notice"@[0]);
    assert("debug"@[0] != "emerg"@[0]);
    assert("debug"@[0] != "alert"@[0]);
    assert("debug"@[0] != "crit"@[0]);
    assert("debug"@[0] != "err"@[0]);
    assert("debug"@[0] != "warning"@[0]);
    assert("debug"@[0] != "notice"@[0]);
    assert("debug"@[0] != "info"@[0]);
}

/// Log targets used by the systemd log control interface.
#[derive(Debug, Copy, Clone, PartialEq, Eq)]
pub enum LogTarget {
    /// The regular console, i.e. stdout or stderr.
    Console,
    /// The kernel ring message buffer.
    ///
    /// Normally not used by userspace services.
    Kmsg,
    /// The direct interface to the systemd journal.
    ///
    /// Prefer this over `Syslog`, and over console logging,
    /// if the process runs under systemd, because this interface
    /// retains all structured data.
    Journal,
    /// The legacy syslog interface.
    ///
    /// Services which use systemd should prefer the `Journal` interface.
    Syslog,
    /// Disable all logging.
    Null,
    /// Automatically log to console or journal.
    ///
    /// If the stdout or stderr streams of the current process are
    /// connected to the systemd journal this is equivalent to `Journal`.
    /// Otherwise it's `Console`.
    Auto,
}

/// Why a text is no log target.
#[derive(Debug, Copy, Clone, PartialEq, Eq)]
pub enum LogTargetParseError {
    InvalidLogTarget,
}

/// The name of a log target on the log control interface.
pub open spec fn target_name(target: LogTarget) -> Seq<char> {
    match target {
        LogTarget::Console => "console"@,
        LogTarget::Kmsg => "kmsg"@,
        LogTarget::Journal => "journal"@,
        LogTarget::Syslog => "syslog"@,
        LogTarget::Null => "null"@,
        LogTarget::Auto => "auto"@,
    }
}

/// The log target with the given name, if there is one.
pub open spec fn target_named(name: Seq<char>) -> Option<LogTarget> {
    if name == "console"@ {
        Some(LogTarget::Console)
    } else if name == "kmsg"@ {
        Some(LogTarget::Kmsg)
    } else if name == "journal"@ {
        Some(LogTarget::Journal)
    } else if name == "syslog"@ {
        Some(LogTarget::Syslog)
    } else if name == "null"@ {
        Some(LogTarget::Null)
    } else if name == "auto"@ {
        Some(LogTarget::Auto)
    } else {
        None
    }
}

impl LogTarget {
    /// Read a log target from its name.
    pub fn try_from(value: &str) -> (target: Result<LogTarget, LogTargetParseError>)
        ensures
            target == match target_named(value@) {
                Some(found) => Ok::<LogTarget, LogTargetParseError>(found),
                None => Err(LogTargetParseError::InvalidLogTarget),
            },
    {
        if str_eq(value, "console") {
            Ok(LogTarget::Console)
        } else if str_eq(value, "kmsg") {
            Ok(LogTarget::Kmsg)
        } else if str_eq(value, "journal") {
            Ok(LogTarget::Journal)
        } else if str_eq(value, "syslog") {
            Ok(LogTarget::Syslog)
        } else if str_eq(value, "null") {
            Ok(LogTarget::Null)
        } else if str_eq(value, "auto") {
            Ok(LogTarget::Auto)
        } else {
            Err(LogTargetParseError::InvalidLogTarget)
        }
    }

    /// The name of this log target.
    pub fn as_str(&self) -> (name: &'static str)
        ensures
            name@ == target_name(*self),
    {
        match self {
            LogTarget::Console => "console",
            LogTarget::Kmsg => "kmsg",
            LogTarget::Journal => "journal",
            LogTarget::Syslog => "syslog",
            LogTarget::Null => "null",
            LogTarget::Auto => "auto",
        }
    }

    /// The name of this log target, as a string of its own.
    pub fn to_string(&self) -> (name: String)
        ensures
            name@ == target_name(*self),
    {
        self.as_str().to_owned()
    }
}

/// Every log target is read back from its name.
pub proof fn target_name_round_trip(target: LogTarget)
    ensures
        target_named(target_name(target)) == Some(target),
{
    reveal_strlit("console");
    reveal_strlit("kmsg");
    reveal_strlit("journal");
    reveal_strlit("syslog");
    reveal_strlit("null");
    reveal_strlit("auto");
    assert("kmsg"@[0] != "console"@[0]);
    assert("journal"@[0] != "console"@[0]);
    assert("journal"@[0] != "kmsg"@[0]);
    assert("syslog"@[0] != "console"@[0]);
    assert("syslog"@[0] != "kmsg"@[0]);
    assert("syslog"@[0] != "journal"@[0]);
    assert("null"@[0] != "console"@[0]);
    assert("null"@[0] != "kmsg"@[0]);
    assert("null"@[0] != "journal"@[0]);
    assert("null"@[0] != "syslog"@[0]);
    assert("auto"@[0] != "console"@[0]);
    assert("auto"@[0] != "kmsg"@[0]);
    assert("auto"@[0] != "journal"@[0]);
    assert("auto"@[0] != "syslog"@[0]);
    assert("auto"@[0] != "null"@[0]);
}

/// Why the log control interface refused a request.
#[derive(Debug, PartialEq, Eq)]
pub enum LogControlError {
    /// An argument is no valid value; holds the message.
    InvalidArgs(String),
    /// The log framework does not support what was asked for; holds the message.
    NotSupported(String),
    /// The log framework failed; holds the message.
    Failed(String),
}

/// Control target and level of a log framework.
///
/// Bridges the log control DBus interface to an actual logging framework.
pub trait LogController {
    /// Get the currently configured log level.
    fn level(&self) -> LogLevel;

    /// Set the level of the underlying log framework.
    fn set_level(&mut self, level: LogLevel) -> Result<(), LogControlError>;

    /// Get the currently configured log target.
    fn target(&self) -> LogTarget;

    /// Set the target of the underlying log framework.
    fn set_target(&mut self, target: LogTarget) -> Result<(), LogControlError>;
}

/// Read the log level that a request names.
pub fn requested_level(level: &str) -> (requested: Result<LogLevel, LogControlError>)
    ensures
        match level_named(level@) {
            Some(found) => requested == Ok::<LogLevel, LogControlError>(found),
            None => match requested {
                Err(LogControlError::InvalidArgs(message)) => message@ == "Unknown log level: "@
                    + level@,
                _ => false,
            },
        },
{
    match LogLevel::try_from(level) {
        Ok(found) => Ok(found),
        Err(_) => {
            let mut message = "Unknown log level: ".to_owned();
            message.append(level);
            Err(LogControlError::InvalidArgs(message))
        },
    }
}

/// Read the log target that a request names.
pub fn requested_target(target: &str) -> (requested: Result<LogTarget, LogControlError>)
    ensures
        match target_named(target@) {
            Some(found) => requested == Ok::<LogTarget, LogControlError>(found),
            None => match requested {
                Err(LogControlError::InvalidArgs(message)) => message@ == "Unknown log target: "@
                    + target@,
                _ => false,
            },
        },
{
    match LogTarget::try_from(target) {
        Ok(found) => Ok(found),
        Err(_) => {
            let mut message = "Unknown log target: ".to_owned();
            message.append(target);
            Err(LogControlError::InvalidArgs(message))
        },
    }
}

/// Control logging remotely.
pub struct LogControl<C: LogController> {
    /// The log controller
    controller: C,
}

impl<C: LogController> LogControl<C> {
    /// The controller behind this interface.
    pub closed spec fn controller_view(&self) -> C {
        self.controller
    }

    /// Create a new log control interface for the given controller.
    pub fn new(controller: C) -> (control: LogControl<C>)
        ensures
            control.controller_view() == controller,
    {
        Self { controller }
    }

    /// Get the currently configured log level.
    ///
    /// The controller is asked for the level, and the name of the level that it
    /// reports is returned.
    pub fn log_level(&self) -> (name: String)
        ensures
            exists|level: LogLevel|
                call_ensures(C::level, (&self.controller_view(),), level) && name@ == level_name(
                    level,
                ),
    {
        let level = self.controller.level();
        level.to_string()
    }

    /// Set the new log level.
    ///
    /// A level that the interface does not know is refused, and the controller is
    /// not asked.  For any other level the controller decides.
    pub fn set_log_level(&mut self, level: String) -> (outcome: Result<(), LogControlError>)
        ensures
            level_named(level@) is None ==> final(self).controller_view() == old(
                self,
            ).controller_view() && match outcome {
                Err(LogControlError::InvalidArgs(message)) => message@ == "Unknown log level: "@
                    + level@,
                _ => false,
            },
    {
        match requested_level(level.as_str()) {
            Ok(level) => self.controller.set_level(level),
            Err(error) => Err(error),
        }
    }

    /// Get the currently configured log target.
    ///
    /// The controller is asked for the target, and the name of the target that it
    /// reports is returned.
    pub fn log_target(&self) -> (name: String)
        ensures
            exists|target: LogTarget|
                call_ensures(C::target, (&self.controller_view(),), target) && name@
                    == target_name(target),
    {
        let target = self.controller.target();
        target.to_string()
    }

    /// Change the log target.
    ///
    /// A target that the interface does not know is refused, and the controller is
    /// not asked.  For any other target the controller decides.
    pub fn set_log_target(&mut self, target: String) -> (outcome: Result<(), LogControlError>)
        ensures
            target_named(target@) is None ==> final(self).controller_view() == old(
                self,
            ).controller_view() && match outcome {
                Err(LogControlError::InvalidArgs(message)) => message@ == "Unknown log target: "@
                    + target@,
                _ => false,
            },
    {
        match requested_target(target.as_str()) {
            Ok(target) => self.controller.set_target(target),
            Err(error) => Err(error),
        }
    }
}

} // verus!
