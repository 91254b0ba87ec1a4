//! The user's configuration: its defaults, its validation, and the log filter
//! it selects.
//!
//! Configuration is stored in TOML format in the user's config directory; the
//! program reads and writes the file and hands the values to this module.

use vstd::prelude::*;
use vstd::string::*;
use crate::text::str_eq;

verus! {

/// Application configuration.
///
/// This structure holds all user-configurable preferences that persist
/// between application sessions.
#[derive(Debug, Clone, PartialEq)]
pub struct Config {
    /// Whether to automatically restart services without prompting.
    pub auto_restart: bool,
    /// Enable verbose output with detailed status messages.
    pub verbose: bool,
    /// Logging verbosity level: "trace", "debug", "info", "warn" or "error".
    pub log_level: String,
    /// Require user confirmation before dangerous operations.
    pub confirm_actions: bool,
    /// Maximum duration for operations before timeout (seconds).
    pub timeout_seconds: u64,
    /// Show progress bars for long-running operations.
    pub show_progress: bool,
    /// Maximum number of repair retries on failure.
    pub max_retries: u32,
}

/// The upper bound of `timeout_seconds`: one hour.
pub const MAX_TIMEOUT_SECONDS: u64 = 3600;

/// Whether `c` holds the default configuration.
pub open spec fn is_default_config(c: Config) -> bool {
    &&& !c.auto_restart
    &&& c.verbose
    &&& c.log_level@ == "info"@
    &&& c.confirm_actions
    &&& c.timeout_seconds == 30
    &&& c.show_progress
    &&& c.max_retries == 2
}

/// The log levels that a configuration may name.
pub open spec fn is_valid_log_level(level: Seq<char>) -> bool {
    ||| level == "trace"@
    ||| level == "debug"@
    ||| level == "info"@
    ||| level == "warn"@
    ||| level == "error"@
}

/// Whether every value of the configuration is within its accepted range.
pub open spec fn is_valid_config(c: Config) -> bool {
    &&& is_valid_log_level(c.log_level@)
    &&& 1 <= c.timeout_seconds <= MAX_TIMEOUT_SECONDS
}

/// Why a configuration was refused.
#[derive(Debug, Clone, PartialEq, Eq)]
pub enum ConfigError {
    /// The log level is not one of the accepted names; it holds the level given.
    InvalidLogLevel(String),
    /// The timeout is zero.
    ZeroTimeout,
    /// The timeout is above one hour.
    TimeoutTooLong,
}

/// What `validate` answers for a configuration: the first rule it breaks, in
/// the order log level, zero timeout, timeout above the bound.
pub open spec fn validation_result(c: Config) -> Result<(), ConfigError> {
    if !is_valid_log_level(c.log_level@) {
        Err(ConfigError::InvalidLogLevel(c.log_level))
    } else if c.timeout_seconds == 0 {
        Err(ConfigError::ZeroTimeout)
    } else if c.timeout_seconds > MAX_TIMEOUT_SECONDS {
        Err(ConfigError::TimeoutTooLong)
    } else {
        Ok(())
    }
}

/// The message that explains a refused configuration.
pub open spec fn config_error_message(e: ConfigError) -> Seq<char> {
    match e {
        ConfigError::InvalidLogLevel(level) =>
            "Invalid log_level '"@ + level@ + "'. Must be one of: trace, debug, info, warn, error"@,
        ConfigError::ZeroTimeout => "timeout_seconds must be greater than 0"@,
        ConfigError::TimeoutTooLong => "timeout_seconds must not exceed 3600 (1 hour)"@,
    }
}

impl ConfigError {
    /// Returns the message that explains this error.
    pub fn to_string(&self) -> (r: String)
        ensures
            r@ == config_error_message(*self),
    {
        broadcast use vstd::string::group_string_axioms;
        match self {
            ConfigError::InvalidLogLevel(level) => {
                let mut out = "Invalid log_level '".to_string();
                out.append(level.as_str());
                out.append("'. Must be one of: trace, debug, info, warn, error");
                out
            },
            ConfigError::ZeroTimeout => "timeout_seconds must be greater than 0".to_string(),
            ConfigError::TimeoutTooLong => "timeout_seconds must not exceed 3600 (1 hour)".to_string(),
        }
    }
}

/// A filter on the severity of log records, as the `log` crate defines it.
#[derive(Debug, Clone, Copy, PartialEq, Eq, Structural)]
pub enum LevelFilter {
    /// No records.
    Off,
    /// Errors only.
    Error,
    /// Warnings and errors.
    Warn,
    /// Information, warnings and errors.
    Info,
    /// Everything but trace records.
    Debug,
    /// All records.
    Trace,
}

/// The filter that a configured level name selects; a name that is not a
/// level selects `Info`.
pub open spec fn level_filter_for(level: Seq<char>) -> LevelFilter {
    if level == "trace"@ {
        LevelFilter::Trace
    } else if level == "debug"@ {
        LevelFilter::Debug
    } else if level == "info"@ {
        LevelFilter::Info
    } else if level == "warn"@ {
        LevelFilter::Warn
    } else if level == "error"@ {
        LevelFilter::Error
    } else {
        LevelFilter::Info
    }
}

impl Default for Config {
    /// Creates a configuration with the default values.
    ///
    /// These defaults prioritize safety and user awareness over convenience.
    fn default() -> (r: Self)
        ensures
            is_default_config(r),
    {
        broadcast use vstd::string::group_string_axioms;
        Config {
            auto_restart: false,
            verbose: true,
            log_level: "info".to_string(),
            confirm_actions: true,
            timeout_seconds: 30,
            show_progress: true,
            max_retries: 2,
        }
    }
}

impl Config {
    /// Validates configuration values.
    ///
    /// Ensures the log level is one of the accepted names and the timeout is
    /// between one second and one hour.
    pub fn validate(&self) -> (r: Result<(), ConfigError>)
        ensures
            r == validation_result(*self),
            r is Ok <==> is_valid_config(*self),
    {
        let level = self.log_level.as_str();
        let known = str_eq(level, "trace") || str_eq(level, "debug") || str_eq(level, "info")
            || str_eq(level, "warn") || str_eq(level, "error");
        if !known {
            return Err(ConfigError::InvalidLogLevel(self.log_level.clone()));
        }
        if self.timeout_seconds == 0 {
            return Err(ConfigError::ZeroTimeout);
        }
        if self.timeout_seconds > MAX_TIMEOUT_SECONDS {
            return Err(ConfigError::TimeoutTooLong);
        }
        Ok(())
    }

    /// Returns the log filter that the configured level selects.
    ///
    /// A level name that is not one of the accepted ones selects `Info`.
    pub fn get_log_filter(&self) -> (r: LevelFilter)
        ensures
            r == level_filter_for(self.log_level@),
    {
        let level = self.log_level.as_str();
        if str_eq(level, "trace") {
            LevelFilter::Trace
        } else if str_eq(level, "debug") {
            LevelFilter::Debug
        } else if str_eq(level, "info") {
            LevelFilter::Info
        } else if str_eq(level, "warn") {
            LevelFilter::Warn
        } else if str_eq(level, "error") {
            LevelFilter::Error
        } else {
            LevelFilter::Info
        }
    }
}

/// The default configuration passes validation.
pub proof fn lemma_default_is_valid(c: Config)
    requires
        is_default_config(c),
    ensures
        is_valid_config(c),
        validation_result(c) == Ok::<(), ConfigError>(()),
{
}

/// Distinct accepted level names select distinct log filters, and none of
/// them selects `Off`.
pub proof fn lemma_valid_levels_select_distinct_filters(a: Seq<char>, b: Seq<char>)
    requires
        is_valid_log_level(a),
        is_valid_log_level(b),
    ensures
        level_filter_for(a) != LevelFilter::Off,
        level_filter_for(a) == level_filter_for(b) ==> a == b,
{
    reveal_strlit("trace");
    reveal_strlit("debug");
    reveal_strlit("info");
    reveal_strlit("warn");
    reveal_strlit("error");
    assert("trace"@ != "debug"@ && "trace"@ != "info"@ && "trace"@ != "warn"@ && "trace"@ != "error"@) by {
        assert("trace"@[0] != "debug"@[0] && "trace"@.len() != "info"@.len() && "trace"@[0] != "warn"@[0] && "trace"@[0] != "error"@[0]);
    }
    assert("debug"@ != "info"@ && "debug"@ != "warn"@ && "debug"@ != "error"@) by {
        assert("debug"@.len() != "info"@.len() && "debug"@[0] != "warn"@[0] && "debug"@[0] != "error"@[0]);
    }
    assert("info"@ != "warn"@ && "info"@ != "error"@) by {
        assert("info"@[0] != "warn"@[0] && "info"@.len() != "error"@.len());
    }
    assert("warn"@ != "error"@) by {
        assert("warn"@.len() != "error"@.len());
    }
}

/// A configuration passes validation exactly when its level is one of the
/// five names trace, debug, info, warn, error and its timeout lies between
/// one second and one hour; a level outside the five is refused by name.
pub proof fn lemma_validation_law(c: Config)
    ensures
        validation_result(c) == Ok::<(), ConfigError>(()) <==> (
            (c.log_level@ == "trace"@ || c.log_level@ == "debug"@ || c.log_level@ == "info"@
                || c.log_level@ == "warn"@ || c.log_level@ == "error"@)
            && 1 <= c.timeout_seconds <= 3600),
        !(c.log_level@ == "trace"@ || c.log_level@ == "debug"@ || c.log_level@ == "info"@
            || c.log_level@ == "warn"@ || c.log_level@ == "error"@)
            ==> validation_result(c) == Err::<(), ConfigError>(ConfigError::InvalidLogLevel(c.log_level)),
        c.timeout_seconds == 0 && is_valid_log_level(c.log_level@)
            ==> validation_result(c) == Err::<(), ConfigError>(ConfigError::ZeroTimeout),
        c.timeout_seconds > 3600 && is_valid_log_level(c.log_level@)
            ==> validation_result(c) == Err::<(), ConfigError>(ConfigError::TimeoutTooLong),
{
}

/// Each of the five level names selects the filter of the same name, and
/// every other name selects `Info`.
pub proof fn lemma_level_names_select_their_filter(level: Seq<char>)
    ensures
        level == "trace"@ ==> level_filter_for(level) == LevelFilter::Trace,
        level == "debug"@ ==> level_filter_for(level) == LevelFilter::Debug,
        level == "info"@ ==> level_filter_for(level) == LevelFilter::Info,
        level == "warn"@ ==> level_filter_for(level) == LevelFilter::Warn,
        level == "error"@ ==> level_filter_for(level) == LevelFilter::Error,
        level_filter_for(level) != LevelFilter::Info ==> is_valid_log_level(level),
        !is_valid_log_level(level) ==> level_filter_for(level) == LevelFilter::Info,
{
    reveal_strlit("trace");
    reveal_strlit("debug");
    reveal_strlit("info");
    reveal_strlit("warn");
    reveal_strlit("error");
    assert("trace"@[0] != "debug"@[0] && "trace"@.len() != "info"@.len() && "trace"@[0] != "warn"@[0] && "trace"@[0] != "error"@[0]);
    assert("debug"@.len() != "info"@.len() && "debug"@[0] != "warn"@[0] && "debug"@[0] != "error"@[0]);
    assert("info"@[0] != "warn"@[0] && "info"@.len() != "error"@.len());
    assert("warn"@.len() != "error"@.len());
}

} // verus!
