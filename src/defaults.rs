use crate::backend::{
    accepted,
    build_config,
    builder_appenders,
    builder_loggers,
    config_appenders,
    config_loggers,
    config_root,
    texts,
    config_builder,
    config_sinks,
    console_pattern,
    env_free,
    file_sink,
    SinkSpec,
    fixed_window_roller,
    pattern_console_appender,
    pattern_rolling_file_appender,
    with_console_appender,
    with_file_appender,
};
use lum_libs::log::{LevelFilter, SetLoggerError};
use lum_libs::log4rs::append::console::ConsoleAppender;
use lum_libs::log4rs::append::rolling_file::policy::compound::trigger::time::{
    TimeTriggerConfig,
    TimeTriggerInterval,
};
use lum_libs::log4rs::append::rolling_file::RollingFileAppender;
use lum_libs::log4rs::config::runtime::ConfigErrors;
use lum_libs::log4rs::Config as BackendConfig;
use vstd::pervasive::unreached;
use vstd::prelude::*;
use vstd::string::StringExecFns;

verus! {

/// The pattern that log lines are written in: the RFC 3339 time in UTC to
/// the second, the target padded or cut to 30 characters, the level padded
/// to 5 and highlighted in log4rs's color for it, and the message.
pub open spec fn default_pattern() -> Seq<char> {
    "[{d(%Y-%m-%dT%H:%M:%SZ)(utc)} {t:<30.30} {h({l:<5})}] {m}{n}"@
}

/// The index of the newest archived log file.
pub const ARCHIVE_BASE: u32 = 0;

/// How many archived log files are kept.
pub const ARCHIVE_COUNT: u32 = 10;

/// The name pattern of archived log files: `0.log`, `1.log`, and so on.
pub open spec fn archive_pattern() -> Seq<char> {
    "{}.log"@
}

/// The default minimum log level, `Info`.
pub fn min_log_level() -> (r: LevelFilter)
    ensures
        r == LevelFilter::Info,
{
    LevelFilter::Info
}

/// The default log pattern in log4rs's pattern syntax. A line reads
/// `[2024-11-12T21:10:32Z example::module::path          INFO ] message`.
pub fn format() -> (r: &'static str)
    ensures
        r@ == default_pattern(),
{
    "[{d(%Y-%m-%dT%H:%M:%SZ)(utc)} {t:<30.30} {h({l:<5})}] {m}{n}"
}

/// A console appender that writes lines in the given pattern.
pub fn console_appender(format: &str) -> (r: ConsoleAppender)
    ensures
        console_pattern(r) == format@,
{
    pattern_console_appender(format)
}

/// Whether `sink` is a file written at `path` (as given, where it names no
/// environment variable) in `pattern`, rolled by `trigger` and archived as
/// `0.log` to `9.log`.
pub open spec fn is_file_sink(
    sink: SinkSpec,
    path: Seq<char>,
    pattern: Seq<char>,
    trigger: TimeTriggerConfig,
) -> bool {
    &&& sink.0 == pattern
    &&& sink.1 matches Some(f) && {
        &&& env_free(path) ==> f.0 == path
        &&& f.1 == trigger
        &&& f.2 == (ARCHIVE_BASE, ARCHIVE_COUNT, archive_pattern())
    }
}

/// Daily rolling, aligned to the start of the day, with no random delay.
pub open spec fn daily() -> TimeTriggerConfig {
    TimeTriggerConfig { interval: TimeTriggerInterval::Day(1), modulate: true, max_random_delay: 0 }
}

/// Daily rolling, aligned to the start of the day, with no random delay.
pub fn time_trigger_config() -> (r: TimeTriggerConfig)
    ensures
        r == daily(),
        r.interval == TimeTriggerInterval::Day(1),
        r.modulate,
        r.max_random_delay == 0,
{
    TimeTriggerConfig { interval: TimeTriggerInterval::Day(1), modulate: true, max_random_delay: 0 }
}

/// A file appender at `path` that writes lines in the given pattern, rolls
/// as `time_trigger_config` says and keeps the archived files `0.log` to
/// `9.log`. Fails with the I/O error of opening the file.
pub fn rolling_file_appender(path: &str, format: &str, time_trigger_config: TimeTriggerConfig) -> (r:
    Result<RollingFileAppender, std::io::Error>)
    ensures
        r matches Ok(a) ==> is_file_sink(file_sink(a), path@, format@, time_trigger_config),
{
    match fixed_window_roller(ARCHIVE_BASE, "{}.log", ARCHIVE_COUNT) {
        Some(roller) => pattern_rolling_file_appender(path, format, time_trigger_config, roller),
        None => unreached(),
    }
}

/// A console appender and a file appender at `path`, both writing lines in
/// the given pattern.
pub fn appenders(path: &str, format: &str, time_trigger_config: TimeTriggerConfig) -> (r: (
    ConsoleAppender,
    Result<RollingFileAppender, std::io::Error>,
))
    ensures
        console_pattern(r.0) == format@,
        r.1 matches Ok(a) ==> is_file_sink(file_sink(a), path@, format@, time_trigger_config),
{
    let console = console_appender(format);
    let file = rolling_file_appender(path, format, time_trigger_config);
    (console, file)
}

/// Why a logging configuration could not be built or installed.
#[derive(Debug)]
pub enum ConfigError {
    /// The log file could not be created or opened.
    RollingFileAppenderError(std::io::Error),
    /// log4rs rejected the combination of appenders and loggers.
    ConfigBuildError(ConfigErrors),
    /// A global logger of another kind is already installed.
    SetLoggerError(SetLoggerError),
}

impl ConfigError {
    /// A short description of the kind of failure.
    pub fn message(&self) -> (r: &'static str)
        ensures
            self is RollingFileAppenderError ==> r@ == "Error creating rolling file appender"@,
            self is ConfigBuildError ==> r@ == "Error building log4rs config"@,
            self is SetLoggerError ==> r@ == "Error installing the global logger"@,
    {
        match self {
            ConfigError::RollingFileAppenderError(_) => "Error creating rolling file appender",
            ConfigError::ConfigBuildError(_) => "Error building log4rs config",
            ConfigError::SetLoggerError(_) => "Error installing the global logger",
        }
    }
}

/// A ready-to-use log4rs configuration: every record down to `Trace` goes
/// to the console (appender `stdout`) and to a rolling file at `path`
/// (appender `file`). It never fails with `SetLoggerError`: nothing is
/// installed here.
pub fn config(path: &str, format: &str, time_trigger_config: TimeTriggerConfig) -> (r: Result<
    BackendConfig,
    ConfigError,
>)
    ensures
        r matches Ok(c) ==> {
            &&& config_appenders(c) == seq!["stdout"@, "file"@]
            &&& config_sinks(c).len() == 2
            &&& config_sinks(c)[0] == (format@, None::<(Seq<char>, TimeTriggerConfig, (u32, u32, Seq<char>))>)
            &&& is_file_sink(config_sinks(c)[1], path@, format@, time_trigger_config)
            &&& config_root(c) == (LevelFilter::Trace, seq!["stdout"@, "file"@])
            &&& config_loggers(c) == Seq::<(Seq<char>, LevelFilter)>::empty()
        },
        r matches Err(e) ==> e is RollingFileAppenderError,
{
    let (console, file) = appenders(path, format, time_trigger_config);
    let file = match file {
        Ok(file) => file,
        Err(e) => {
            return Err(ConfigError::RollingFileAppenderError(e));
        },
    };
    let mut builder = config_builder();
    builder = with_console_appender(builder, "stdout", console);
    builder = with_file_appender(builder, "file", file);
    let mut names: Vec<String> = Vec::new();
    names.push(String::from_str("stdout"));
    names.push(String::from_str("file"));
    proof {
        reveal_strlit("stdout");
        reveal_strlit("file");
        let t = texts(names@);
        assert(t =~= seq!["stdout"@, "file"@]);
        assert(t[0] != t[1]) by {
            assert(t[0].len() != t[1].len());
        }
        assert(t.contains(t[0]) && t.contains(t[1]));
        assert(builder_appenders(builder) =~= t);
        assert(builder_loggers(builder).map_values(|l: (Seq<char>, LevelFilter)| l.0) =~= Seq::<
            Seq<char>,
        >::empty());
        assert(accepted(builder_appenders(builder), builder_loggers(builder), t));
    }
    match build_config(builder, &names, LevelFilter::Trace) {
        Ok(c) => Ok(c),
        Err(e) => Err(ConfigError::ConfigBuildError(e)),
    }
}

} // verus!
