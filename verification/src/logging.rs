//! Logger settings: the level, destination and format of log output, and how
//! they are read from the environment.
use vstd::prelude::*;
use crate::env_config::{
    optional_spec, EnvConfig, EnvConfigError, EnvConfigErrorView, EnvLookup, LookupView,
};
use crate::text::{append_str, chars_eq_str, chars_of, lower, lower_chars, string_from_chars, trim, trim_chars};

verus! {

#[verifier::external_type_specification]
#[verifier::external_body]
pub struct ExIoError(std::io::Error);

#[verifier::external_type_specification]
#[verifier::external_body]
pub struct ExTryInitError(tracing_subscriber::util::TryInitError);

/// Severity threshold of log output.
#[derive(Debug, Clone, Copy, PartialEq, Eq)]
pub enum LogLevel {
    Error,
    Warn,
    Info,
    Debug,
}

/// Where log output goes.
#[derive(Debug, Clone, Copy, PartialEq, Eq)]
pub enum LogOutput {
    Console,
    File,
    Both,
}

/// How log records are written.
#[derive(Debug, Clone, Copy, PartialEq, Eq)]
pub enum LogFormat {
    Plain,
    Json,
}

/// The level that a setting names, ignoring case and surrounding white space.
pub open spec fn level_named(s: Seq<char>) -> Option<LogLevel> {
    let t = lower(trim(s));
    if t == "error"@ {
        Some(LogLevel::Error)
    } else if t == "warn"@ || t == "warning"@ {
        Some(LogLevel::Warn)
    } else if t == "info"@ {
        Some(LogLevel::Info)
    } else if t == "debug"@ {
        Some(LogLevel::Debug)
    } else {
        None
    }
}

/// The output that a setting names, ignoring case and surrounding white space.
pub open spec fn output_named(s: Seq<char>) -> Option<LogOutput> {
    let t = lower(trim(s));
    if t == "console"@ {
        Some(LogOutput::Console)
    } else if t == "file"@ {
        Some(LogOutput::File)
    } else if t == "both"@ {
        Some(LogOutput::Both)
    } else {
        None
    }
}

/// The format that a setting names, ignoring case and surrounding white space.
pub open spec fn format_named(s: Seq<char>) -> Option<LogFormat> {
    let t = lower(trim(s));
    if t == "plain"@ {
        Some(LogFormat::Plain)
    } else if t == "json"@ || t == "bunyan"@ {
        Some(LogFormat::Json)
    } else {
        None
    }
}

fn normalized(value: &str) -> (r: Vec<char>)
    ensures
        r@ == lower(trim(value@)),
{
    let c = chars_of(value);
    let t = trim_chars(c.as_slice());
    lower_chars(t.as_slice())
}

impl LogLevel {
    /// Parses a level name: `error`, `warn` or `warning`, `info`, `debug`.
    pub fn from_str(value: &str) -> (r: Option<LogLevel>)
        ensures
            r == level_named(value@),
    {
        let t = normalized(value);
        if chars_eq_str(t.as_slice(), "error") {
            Some(LogLevel::Error)
        } else if chars_eq_str(t.as_slice(), "warn") || chars_eq_str(t.as_slice(), "warning") {
            Some(LogLevel::Warn)
        } else if chars_eq_str(t.as_slice(), "info") {
            Some(LogLevel::Info)
        } else if chars_eq_str(t.as_slice(), "debug") {
            Some(LogLevel::Debug)
        } else {
            None
        }
    }
}

impl LogOutput {
    /// Parses an output name: `console`, `file`, `both`.
    pub fn from_str(value: &str) -> (r: Option<LogOutput>)
        ensures
            r == output_named(value@),
    {
        let t = normalized(value);
        if chars_eq_str(t.as_slice(), "console") {
            Some(LogOutput::Console)
        } else if chars_eq_str(t.as_slice(), "file") {
            Some(LogOutput::File)
        } else if chars_eq_str(t.as_slice(), "both") {
            Some(LogOutput::Both)
        } else {
            None
        }
    }

    /// Whether records go to the console.
    pub fn includes_console(self) -> (r: bool)
        ensures
            r == (self == LogOutput::Console || self == LogOutput::Both),
    {
        match self {
            LogOutput::Console | LogOutput::Both => true,
            LogOutput::File => false,
        }
    }

    /// Whether records go to the log file.
    pub fn includes_file(self) -> (r: bool)
        ensures
            r == (self == LogOutput::File || self == LogOutput::Both),
    {
        match self {
            LogOutput::File | LogOutput::Both => true,
            LogOutput::Console => false,
        }
    }
}

impl LogFormat {
    /// Parses a format name: `plain`, `json` or `bunyan`.
    pub fn from_str(value: &str) -> (r: Option<LogFormat>)
        ensures
            r == format_named(value@),
    {
        let t = normalized(value);
        if chars_eq_str(t.as_slice(), "plain") {
            Some(LogFormat::Plain)
        } else if chars_eq_str(t.as_slice(), "json") || chars_eq_str(t.as_slice(), "bunyan") {
            Some(LogFormat::Json)
        } else {
            None
        }
    }
}

/// Errors of logger set-up.
#[derive(Debug)]
pub enum LoggerServiceError {
    Env(EnvConfigError),
    InvalidConfig(String),
    Io(std::io::Error),
    Init(tracing_subscriber::util::TryInitError),
}

/// Abstract value of a logger error.
pub enum LoggerErrorView {
    Env(EnvConfigErrorView),
    InvalidConfig(Seq<char>),
    Io,
    Init,
}

impl View for LoggerServiceError {
    type V = LoggerErrorView;

    open spec fn view(&self) -> LoggerErrorView {
        match self {
            LoggerServiceError::Env(e) => LoggerErrorView::Env(e@),
            LoggerServiceError::InvalidConfig(m) => LoggerErrorView::InvalidConfig(m@),
            LoggerServiceError::Io(_) => LoggerErrorView::Io,
            LoggerServiceError::Init(_) => LoggerErrorView::Init,
        }
    }
}

/// Logger settings.
#[derive(Debug, Clone)]
pub struct LoggerConfig {
    pub level: LogLevel,
    pub output: LogOutput,
    pub format: LogFormat,
    pub file_path: String,
}

/// The level setting: `info` when unset.
pub open spec fn level_setting(lookup: LookupView) -> Result<LogLevel, LoggerErrorView> {
    match optional_spec("LOG_LEVEL"@, lookup) {
        Err(e) => Err(LoggerErrorView::Env(e)),
        Ok(None) => Ok(LogLevel::Info),
        Ok(Some(v)) => match level_named(v) {
            Some(l) => Ok(l),
            None => Err(
                LoggerErrorView::InvalidConfig(
                    "Invalid LOG_LEVEL `"@ + v + "`. Use one of: error, warn, info, debug"@,
                ),
            ),
        },
    }
}

/// The output setting: the console when unset.
pub open spec fn output_setting(lookup: LookupView) -> Result<LogOutput, LoggerErrorView> {
    match optional_spec("LOG_OUTPUT"@, lookup) {
        Err(e) => Err(LoggerErrorView::Env(e)),
        Ok(None) => Ok(LogOutput::Console),
        Ok(Some(v)) => match output_named(v) {
            Some(o) => Ok(o),
            None => Err(
                LoggerErrorView::InvalidConfig(
                    "Invalid LOG_OUTPUT `"@ + v + "`. Use one of: console, file, both"@,
                ),
            ),
        },
    }
}

/// The format setting: plain text when unset.
pub open spec fn format_setting(lookup: LookupView) -> Result<LogFormat, LoggerErrorView> {
    match optional_spec("LOG_FORMAT"@, lookup) {
        Err(e) => Err(LoggerErrorView::Env(e)),
        Ok(None) => Ok(LogFormat::Plain),
        Ok(Some(v)) => match format_named(v) {
            Some(f) => Ok(f),
            None => Err(
                LoggerErrorView::InvalidConfig(
                    "Invalid LOG_FORMAT `"@ + v + "`. Use one of: plain, json"@,
                ),
            ),
        },
    }
}

/// The log file path: `logs/service.log` when unset.
pub open spec fn file_path_setting(lookup: LookupView) -> Result<Seq<char>, LoggerErrorView> {
    match optional_spec("LOG_FILE_PATH"@, lookup) {
        Err(e) => Err(LoggerErrorView::Env(e)),
        Ok(None) => Ok("logs/service.log"@),
        Ok(Some(v)) => Ok(v),
    }
}

/// Abstract value of logger settings.
pub struct LoggerConfigView {
    pub level: LogLevel,
    pub output: LogOutput,
    pub format: LogFormat,
    pub file_path: Seq<char>,
}

impl View for LoggerConfig {
    type V = LoggerConfigView;

    open spec fn view(&self) -> LoggerConfigView {
        LoggerConfigView {
            level: self.level,
            output: self.output,
            format: self.format,
            file_path: self.file_path@,
        }
    }
}

/// The logger settings that four variables give, read in the order level,
/// output, format, file path; the first failure is reported.
pub open spec fn logger_config_spec(
    level: LookupView,
    output: LookupView,
    format: LookupView,
    file_path: LookupView,
) -> Result<LoggerConfigView, LoggerErrorView> {
    match level_setting(level) {
        Err(e) => Err(e),
        Ok(l) => match output_setting(output) {
            Err(e) => Err(e),
            Ok(o) => match format_setting(format) {
                Err(e) => Err(e),
                Ok(f) => match file_path_setting(file_path) {
                    Err(e) => Err(e),
                    Ok(p) => Ok(LoggerConfigView { level: l, output: o, format: f, file_path: p }),
                },
            },
        },
    }
}

fn invalid_setting(prefix: &str, value: &str, suffix: &str) -> (r: LoggerServiceError)
    ensures
        r@ == LoggerErrorView::InvalidConfig(prefix@ + value@ + suffix@),
{
    let mut v = chars_of(prefix);
    append_str(&mut v, value);
    append_str(&mut v, suffix);
    LoggerServiceError::InvalidConfig(string_from_chars(v.as_slice()))
}

impl LoggerConfig {
    /// Logger settings from the `LOG_LEVEL`, `LOG_OUTPUT`, `LOG_FORMAT` and
    /// `LOG_FILE_PATH` variables.
    pub fn from_env(
        level: EnvLookup,
        output: EnvLookup,
        format: EnvLookup,
        file_path: EnvLookup,
    ) -> (r: Result<LoggerConfig, LoggerServiceError>)
        ensures
            match r {
                Ok(c) => logger_config_spec(level@, output@, format@, file_path@) == Ok::<
                    LoggerConfigView,
                    LoggerErrorView,
                >(c@),
                Err(e) => logger_config_spec(level@, output@, format@, file_path@) == Err::<
                    LoggerConfigView,
                    LoggerErrorView,
                >(e@),
            },
    {
        let ghost (lv, ov, fv, pv) = (level@, output@, format@, file_path@);
        let level = match EnvConfig::get_optional("LOG_LEVEL", level) {
            Err(e) => return Err(LoggerServiceError::Env(e)),
            Ok(None) => LogLevel::Info,
            Ok(Some(value)) => match LogLevel::from_str(value.as_str()) {
                Some(l) => l,
                None => return Err(
                    invalid_setting(
                        "Invalid LOG_LEVEL `",
                        value.as_str(),
                        "`. Use one of: error, warn, info, debug",
                    ),
                ),
            },
        };
        assert(level_setting(lv) == Ok::<LogLevel, LoggerErrorView>(level));
        let output = match EnvConfig::get_optional("LOG_OUTPUT", output) {
            Err(e) => return Err(LoggerServiceError::Env(e)),
            Ok(None) => LogOutput::Console,
            Ok(Some(value)) => match LogOutput::from_str(value.as_str()) {
                Some(o) => o,
                None => return Err(
                    invalid_setting(
                        "Invalid LOG_OUTPUT `",
                        value.as_str(),
                        "`. Use one of: console, file, both",
                    ),
                ),
            },
        };
        assert(output_setting(ov) == Ok::<LogOutput, LoggerErrorView>(output));
        let format = match EnvConfig::get_optional("LOG_FORMAT", format) {
            Err(e) => return Err(LoggerServiceError::Env(e)),
            Ok(None) => LogFormat::Plain,
            Ok(Some(value)) => match LogFormat::from_str(value.as_str()) {
                Some(f) => f,
                None => return Err(
                    invalid_setting(
                        "Invalid LOG_FORMAT `",
                        value.as_str(),
                        "`. Use one of: plain, json",
                    ),
                ),
            },
        };
        assert(format_setting(fv) == Ok::<LogFormat, LoggerErrorView>(format));
        let file_path = match EnvConfig::get_optional("LOG_FILE_PATH", file_path) {
            Err(e) => return Err(LoggerServiceError::Env(e)),
            Ok(None) => crate::text::to_owned_string("logs/service.log"),
            Ok(Some(value)) => value,
        };
        Ok(LoggerConfig { level, output, format, file_path })
    }
}

/// Logger set-up; the installation of the subscriber itself is done by the
/// service binaries.
pub struct LoggerService;

} // verus!
