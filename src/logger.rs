use vstd::prelude::*;
use vstd::string::StringExecFns;

use crate::config::{section_entries, text_entry, Config, ConfigSection};
use crate::error::{error_cause, Error};

verus! {

pub const ERR_INVALID_LOG_LEVEL: &'static str = "Invalid log level";

pub const ERR_NO_LOG_LEVEL: &'static str = "No log level";

/// How much the program logs, from nothing to everything.
#[derive(Clone, Copy, Debug, PartialEq, Eq, Structural)]
pub enum LogLevel {
    Off,
    Error,
    Warn,
    Info,
    Debug,
    Trace,
}

/// The logging settings.
#[derive(Clone, Copy, Debug, PartialEq, Eq, Structural)]
pub struct LoggerConfig {
    pub level: LogLevel,
}

/// The level that a level name stands for.
pub open spec fn level_named(name: Seq<char>) -> Option<LogLevel> {
    if name == "trace"@ {
        Some(LogLevel::Trace)
    } else if name == "debug"@ {
        Some(LogLevel::Debug)
    } else if name == "info"@ {
        Some(LogLevel::Info)
    } else if name == "warn"@ {
        Some(LogLevel::Warn)
    } else if name == "error"@ {
        Some(LogLevel::Error)
    } else if name == "off"@ {
        Some(LogLevel::Off)
    } else {
        None
    }
}

/// The outcome of reading the level of a logger section with entries `e`:
/// the level that its `level` string names; an error when there is no such
/// string, or when it names no level.
pub open spec fn level_outcome(e: Seq<(String, crate::config::ConfigValue)>, r: Result<LogLevel, Error>) -> bool {
    match text_entry(e, "level"@) {
        None => r matches Err(err) && err is Configuration && error_cause(err) == ERR_NO_LOG_LEVEL@,
        Some(name) => match level_named(name) {
            Some(level) => r == Ok::<LogLevel, Error>(level),
            None => r matches Err(err) && err is Configuration && error_cause(err)
                == ERR_INVALID_LOG_LEVEL@,
        },
    }
}

impl Config {
    /// The log level of a logger section.
    pub fn get_level(section: &ConfigSection) -> (r: Result<LogLevel, Error>)
        ensures
            level_outcome(section.entries@, r),
    {
        let name = match section.get_text("level") {
            Some(n) => n,
            None => {
                return Err(Error::Configuration(String::from_str(ERR_NO_LOG_LEVEL)));
            },
        };
        if name == String::from_str("trace") {
            Ok(LogLevel::Trace)
        } else if name == String::from_str("debug") {
            Ok(LogLevel::Debug)
        } else if name == String::from_str("info") {
            Ok(LogLevel::Info)
        } else if name == String::from_str("warn") {
            Ok(LogLevel::Warn)
        } else if name == String::from_str("error") {
            Ok(LogLevel::Error)
        } else if name == String::from_str("off") {
            Ok(LogLevel::Off)
        } else {
            Err(Error::Configuration(String::from_str(ERR_INVALID_LOG_LEVEL)))
        }
    }

    /// The logging settings of the `logger` section; a missing section reads
    /// as an empty one.
    pub fn logger(&self) -> (r: Result<LoggerConfig, Error>)
        ensures
            level_outcome(
                section_entries(self.sections@, "logger"@),
                match r {
                    Ok(c) => Ok(c.level),
                    Err(e) => Err(e),
                },
            ),
    {
        let empty = ConfigSection::new();
        let section = match self.get("logger") {
            Some(s) => s,
            None => &empty,
        };
        assert(section.entries@ =~= section_entries(self.sections@, "logger"@));
        let level = Config::get_level(section)?;
        Ok(LoggerConfig { level })
    }
}

} // verus!
