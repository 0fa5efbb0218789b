use lum_libs::log::{LevelFilter, SetLoggerError};
use lum_libs::log4rs::append::console::ConsoleAppender;
use lum_libs::log4rs::append::rolling_file::policy::compound::roll::fixed_window::FixedWindowRoller;
use lum_libs::log4rs::append::rolling_file::policy::compound::trigger::time::{
    TimeTrigger,
    TimeTriggerConfig,
    TimeTriggerInterval,
};
use lum_libs::log4rs::append::rolling_file::policy::compound::CompoundPolicy;
use lum_libs::log4rs::append::rolling_file::RollingFileAppender;
use lum_libs::log4rs::config::runtime::{ConfigBuilder, ConfigErrors};
use lum_libs::log4rs::config::{Appender, Logger, Root};
use lum_libs::log4rs::encode::pattern::PatternEncoder;
use lum_libs::log4rs::Config as BackendConfig;
use lum_libs::log4rs::Handle;
use vstd::prelude::*;

verus! {

/// The logging configuration that log4rs installs; opaque here.
#[verifier::external_type_specification]
#[verifier::external_body]
pub struct ExBackendConfig(BackendConfig);

/// The handle through which an installed log4rs logger is reconfigured.
#[verifier::external_type_specification]
#[verifier::external_body]
pub struct ExHandle(Handle);

/// The error that `log` reports when a global logger is already installed.
#[verifier::external_type_specification]
#[verifier::external_body]
pub struct ExSetLoggerError(SetLoggerError);

/// The validation errors of a log4rs configuration.
#[verifier::external_type_specification]
#[verifier::external_body]
pub struct ExConfigErrors(ConfigErrors);

/// A log4rs configuration under construction.
#[verifier::external_type_specification]
#[verifier::external_body]
pub struct ExConfigBuilder(ConfigBuilder);

/// A log4rs appender that writes to the console.
#[verifier::external_type_specification]
#[verifier::external_body]
pub struct ExConsoleAppender(ConsoleAppender);

/// A log4rs appender that writes to a file and rolls it over.
#[verifier::external_type_specification]
#[verifier::external_body]
pub struct ExRollingFileAppender(RollingFileAppender);

/// The log4rs roller that keeps a fixed window of archived files.
#[verifier::external_type_specification]
#[verifier::external_body]
pub struct ExFixedWindowRoller(FixedWindowRoller);

/// An I/O error.
#[verifier::external_type_specification]
#[verifier::external_body]
pub struct ExIoError(std::io::Error);

/// When a time-triggered file rolls over; its fields are plain values.
#[verifier::external_type_specification]
pub struct ExTimeTriggerConfig(TimeTriggerConfig);

/// The interval of a time trigger.
#[verifier::external_type_specification]
pub struct ExTimeTriggerInterval(TimeTriggerInterval);

/// Relies on log4rs::init_config: installs the configuration as the global
/// logger, or fails where a global logger is already installed. log's
/// maximum level is set from the configuration in either case.
#[verifier::external_body]
pub(crate) fn init_config(config: BackendConfig) -> Result<Handle, SetLoggerError> {
    lum_libs::log4rs::init_config(config)
}

/// Relies on log4rs::Handle::set_config: replaces the configuration of the
/// installed logger.
#[verifier::external_body]
pub(crate) fn set_config(handle: &Handle, config: BackendConfig) {
    handle.set_config(config)
}

/// The names of the appenders registered in a log4rs configuration under
/// construction, in the order they were registered.
pub uninterp spec fn builder_appenders(b: ConfigBuilder) -> Seq<Seq<char>>;

/// What an appender writes: the pattern of its lines, and for a file the
/// path it writes to, the trigger that rolls it and its roller's window;
/// for the console, nothing more.
pub type SinkSpec = (Seq<char>, Option<(Seq<char>, TimeTriggerConfig, (u32, u32, Seq<char>))>);

/// What each appender registered in a log4rs configuration under
/// construction writes, in the order they were registered.
pub uninterp spec fn builder_sinks(b: ConfigBuilder) -> Seq<SinkSpec>;

/// What each appender of a built log4rs configuration writes.
pub uninterp spec fn config_sinks(c: BackendConfig) -> Seq<SinkSpec>;

/// The pattern a console appender encodes its lines with.
pub uninterp spec fn console_pattern(a: ConsoleAppender) -> Seq<char>;

/// The path a rolling file appender writes to.
pub uninterp spec fn file_appender_path(a: RollingFileAppender) -> Seq<char>;

/// Whether `path` holds no `$ENV{`, so that log4rs takes it as it stands.
pub open spec fn env_free(path: Seq<char>) -> bool {
    forall|i: int| 0 <= i && i + 5 <= path.len() ==> #[trigger] path.subrange(i, i + 5) != "$ENV{"@
}

/// What a file appender writes, as recorded in a configuration.
pub open spec fn file_sink(a: RollingFileAppender) -> SinkSpec {
    (
        file_appender_setup(a).0,
        Some((file_appender_path(a), file_appender_setup(a).1, file_appender_setup(a).2)),
    )
}

/// The module loggers registered in a log4rs configuration under
/// construction, as name and level, in the order they were registered.
pub uninterp spec fn builder_loggers(b: ConfigBuilder) -> Seq<(Seq<char>, LevelFilter)>;

/// The names of the appenders of a built log4rs configuration.
pub uninterp spec fn config_appenders(c: BackendConfig) -> Seq<Seq<char>>;

/// The module loggers of a built log4rs configuration, as name and level.
pub uninterp spec fn config_loggers(c: BackendConfig) -> Seq<(Seq<char>, LevelFilter)>;

/// The root logger of a built log4rs configuration: its level and the
/// names of the appenders it writes to.
pub uninterp spec fn config_root(c: BackendConfig) -> (LevelFilter, Seq<Seq<char>>);

/// The characters of each string.
pub open spec fn texts(v: Seq<String>) -> Seq<Seq<char>> {
    v.map_values(|s: String| s@)
}

/// No two entries are equal.
pub open spec fn distinct(names: Seq<Seq<char>>) -> bool {
    forall|i: int, j: int| 0 <= i < names.len() && 0 <= j < names.len() && i != j ==> names[i] != names[j]
}

/// Whether the colons of `name`, from a run of `streak` colons on, come in
/// runs of exactly two with none at the end.
pub open spec fn colon_runs_ok(name: Seq<char>, streak: nat) -> bool
    decreases name.len(),
{
    if name.len() == 0 {
        streak == 0
    } else if name[0] == ':' {
        streak < 2 && colon_runs_ok(name.drop_first(), streak + 1)
    } else {
        (streak == 0 || streak == 2) && colon_runs_ok(name.drop_first(), 0)
    }
}

/// A logger name that log4rs accepts: not empty, with its path segments
/// separated by `::` alone.
pub open spec fn valid_logger_name(name: Seq<char>) -> bool {
    name.len() > 0 && colon_runs_ok(name, 0)
}

/// Whether log4rs accepts a configuration with these appenders and module
/// loggers and a root logger writing to `root`: appender names distinct,
/// every root appender registered, logger names distinct and valid.
pub open spec fn accepted(
    appenders: Seq<Seq<char>>,
    loggers: Seq<(Seq<char>, LevelFilter)>,
    root: Seq<Seq<char>>,
) -> bool {
    &&& distinct(appenders)
    &&& forall|i: int| 0 <= i < root.len() ==> appenders.contains(#[trigger] root[i])
    &&& distinct(loggers.map_values(|l: (Seq<char>, LevelFilter)| l.0))
    &&& forall|i: int| 0 <= i < loggers.len() ==> valid_logger_name(#[trigger] loggers[i].0)
}

/// Relies on log4rs::Config::builder: a configuration with no appenders
/// and no loggers.
#[verifier::external_body]
pub(crate) fn config_builder() -> (r: ConfigBuilder)
    ensures
        builder_appenders(r) == Seq::<Seq<char>>::empty(),
        builder_sinks(r) == Seq::<SinkSpec>::empty(),
        builder_loggers(r) == Seq::<(Seq<char>, LevelFilter)>::empty(),
{
    BackendConfig::builder()
}

/// Relies on log4rs::config::ConfigBuilder::appender: registers a console
/// appender under `name`, after those registered before.
#[verifier::external_body]
pub(crate) fn with_console_appender(
    builder: ConfigBuilder,
    name: &str,
    appender: ConsoleAppender,
) -> (r: ConfigBuilder)
    ensures
        builder_appenders(r) == builder_appenders(builder).push(name@),
        builder_sinks(r) == builder_sinks(builder).push((console_pattern(appender), None)),
        builder_loggers(r) == builder_loggers(builder),
{
    builder.appender(Appender::builder().build(name, Box::new(appender)))
}

/// Relies on log4rs::config::ConfigBuilder::appender: registers a rolling
/// file appender under `name`, after those registered before.
#[verifier::external_body]
pub(crate) fn with_file_appender(
    builder: ConfigBuilder,
    name: &str,
    appender: RollingFileAppender,
) -> (r: ConfigBuilder)
    ensures
        builder_appenders(r) == builder_appenders(builder).push(name@),
        builder_sinks(r) == builder_sinks(builder).push(file_sink(appender)),
        builder_loggers(r) == builder_loggers(builder),
{
    builder.appender(Appender::builder().build(name, Box::new(appender)))
}

/// Relies on log4rs::config::ConfigBuilder::logger: registers a logger for
/// `module` at `level`, with no appenders of its own, after those
/// registered before.
#[verifier::external_body]
pub(crate) fn with_logger(builder: ConfigBuilder, module: &str, level: LevelFilter) -> (r:
    ConfigBuilder)
    ensures
        builder_appenders(r) == builder_appenders(builder),
        builder_sinks(r) == builder_sinks(builder),
        builder_loggers(r) == builder_loggers(builder).push((module@, level)),
{
    builder.logger(Logger::builder().build(module, level))
}

/// Relies on log4rs::config::ConfigBuilder::build: with a root logger at
/// `level` writing to `appenders`, succeeds exactly when the configuration
/// is accepted, and then keeps every appender and logger as registered.
#[verifier::external_body]
pub(crate) fn build_config(
    builder: ConfigBuilder,
    appenders: &Vec<String>,
    level: LevelFilter,
) -> (r: Result<BackendConfig, ConfigErrors>)
    ensures
        r is Ok <==> accepted(
            builder_appenders(builder),
            builder_loggers(builder),
            texts(appenders@),
        ),
        r matches Ok(c) ==> config_appenders(c) == builder_appenders(builder) && config_sinks(c)
            == builder_sinks(builder) && config_loggers(c) == builder_loggers(builder)
            && config_root(c) == (level, texts(appenders@)),
{
    builder.build(Root::builder().appenders(appenders.iter().cloned()).build(level))
}

/// Relies on log4rs::append::console::ConsoleAppender::builder: an appender
/// that writes to the standard output stream and encodes records with the
/// given pattern.
#[verifier::external_body]
pub(crate) fn pattern_console_appender(pattern: &str) -> (r: ConsoleAppender)
    ensures
        console_pattern(r) == pattern@,
{
    ConsoleAppender::builder().encoder(Box::new(PatternEncoder::new(pattern))).build()
}

/// What a fixed-window roller keeps: the index of the newest archive, how
/// many archives, and the name pattern of the archived files.
pub uninterp spec fn roller_window(r: FixedWindowRoller) -> (u32, u32, Seq<char>);

/// What a rolling file appender was built with: the pattern of its lines,
/// the time trigger that rolls it, and the window of its roller.
pub uninterp spec fn file_appender_setup(a: RollingFileAppender) -> (
    Seq<char>,
    TimeTriggerConfig,
    (u32, u32, Seq<char>),
);

/// Relies on log4rs's FixedWindowRollerBuilder::build, which succeeds on a
/// pattern that holds `{}` and ends in `.log`, and keeps `base`, `count`
/// and the pattern.
#[verifier::external_body]
pub(crate) fn fixed_window_roller(base: u32, pattern: &str, count: u32) -> (r: Option<
    FixedWindowRoller,
>)
    ensures
        pattern@ == "{}.log"@ ==> r is Some,
        r matches Some(x) ==> roller_window(x) == (base, count, pattern@),
{
    FixedWindowRoller::builder().base(base).build(pattern, count).ok()
}

/// Relies on log4rs::append::rolling_file::RollingFileAppenderBuilder::build:
/// opens the file at `path`, encodes lines with `pattern`, rolls by
/// `trigger` and archives with `roller`; fails with the I/O error of
/// creating or opening the file. log4rs expands `$ENV{name}` in the path,
/// and keeps any other path as it stands.
#[verifier::external_body]
pub(crate) fn pattern_rolling_file_appender(
    path: &str,
    pattern: &str,
    trigger: TimeTriggerConfig,
    roller: FixedWindowRoller,
) -> (r: Result<RollingFileAppender, std::io::Error>)
    ensures
        r matches Ok(a) ==> file_appender_setup(a) == (pattern@, trigger, roller_window(roller)),
        r matches Ok(a) ==> (env_free(path@) ==> file_appender_path(a) == path@),
{
    let policy = CompoundPolicy::new(Box::new(TimeTrigger::new(trigger)), Box::new(roller));
    RollingFileAppender::builder().encoder(Box::new(PatternEncoder::new(pattern))).build(
        path,
        Box::new(policy),
    )
}

} // verus!
