use crate::backend::{console_pattern, file_sink};
use crate::defaults;
use lum_libs::log::LevelFilter;
use lum_libs::log4rs::append::console::ConsoleAppender;
use lum_libs::log4rs::append::rolling_file::policy::compound::trigger::time::{
    TimeTriggerConfig,
    TimeTriggerInterval,
};
use lum_libs::log4rs::append::rolling_file::RollingFileAppender;
use vstd::prelude::*;

verus! {

/// The general-purpose log level, `Info`.
pub fn log_level() -> (r: LevelFilter)
    ensures
        r == LevelFilter::Info,
{
    defaults::min_log_level()
}

/// The general-purpose log pattern; the same as the default one.
pub fn format() -> (r: &'static str)
    ensures
        r@ == defaults::default_pattern(),
{
    defaults::format()
}

/// A console appender writing lines in the general-purpose pattern.
pub fn console_appender() -> (r: ConsoleAppender)
    ensures
        console_pattern(r) == defaults::default_pattern(),
{
    defaults::console_appender(format())
}

/// Daily rolling, aligned to the start of the day, with no random delay.
pub fn time_trigger_config() -> (r: TimeTriggerConfig)
    ensures
        r.interval == TimeTriggerInterval::Day(1),
        r.modulate,
        r.max_random_delay == 0,
{
    defaults::time_trigger_config()
}

/// A daily-rolled file appender at `path` writing lines in the
/// general-purpose pattern.
pub fn rolling_file_appender(path: &str) -> (r: Result<RollingFileAppender, std::io::Error>)
    ensures
        r matches Ok(a) ==> defaults::is_file_sink(
            file_sink(a),
            path@,
            defaults::default_pattern(),
            (TimeTriggerConfig { interval: TimeTriggerInterval::Day(1), modulate: true, max_random_delay: 0 }),
        ),
{
    defaults::rolling_file_appender(path, format(), time_trigger_config())
}

/// The console appender and the file appender at `path`.
pub fn appenders(path: &str) -> (r: (ConsoleAppender, Result<RollingFileAppender, std::io::Error>))
    ensures
        console_pattern(r.0) == defaults::default_pattern(),
        r.1 matches Ok(a) ==> defaults::is_file_sink(
            file_sink(a),
            path@,
            defaults::default_pattern(),
            (TimeTriggerConfig { interval: TimeTriggerInterval::Day(1), modulate: true, max_random_delay: 0 }),
        ),
{
    let console = console_appender();
    let file = rolling_file_appender(path);
    (console, file)
}

} // verus!
