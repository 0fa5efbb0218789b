use lum_log::builder::Builder;
use lum_log::color::Color;
use lum_log::config::Config;

use lum_log::defaults::{self, ConfigError};
use lum_log::log::LevelFilter;
use lum_log::logger::{Output, LoggerSlot};
use lum_libs::log4rs::append::rolling_file::policy::compound::trigger::time::TimeTriggerInterval;

const PATTERN: &str = "[{d(%Y-%m-%dT%H:%M:%SZ)(utc)} {t:<30.30} {h({l:<5})}] {m}{n}";

#[test]
fn default_config_has_five_colors_and_info() {
    let config = Config::default();
    assert_eq!(config.colors.len(), 5);
    assert_eq!(config.min_log_level, LevelFilter::Info);
    assert!(config.colors.iter().all(|(l, _)| *l != LevelFilter::Off));
}

#[test]
fn default_config_colors() {
    let config = Config::default();
    assert_eq!(config.color_for(LevelFilter::Error), Color::Red);
    assert_eq!(config.color_for(LevelFilter::Warn), Color::Yellow);
    assert_eq!(config.color_for(LevelFilter::Info), Color::Green);
    assert_eq!(config.color_for(LevelFilter::Debug), Color::Magenta);
    assert_eq!(config.color_for(LevelFilter::Trace), Color::Cyan);
    assert_eq!(config.color_for(LevelFilter::Off), Color::White);
}

#[test]
fn unknown_color_in_config_renders_white() {
    let config = Config {
        colors: vec![(LevelFilter::Error, "ultraviolet".to_string())],
        min_log_level: LevelFilter::Info,
    };
    assert_eq!(config.color_for(LevelFilter::Error), Color::White);
    assert_eq!(config.color_for(LevelFilter::Warn), Color::White);
}

#[test]
fn default_levels_and_pattern() {
    assert_eq!(defaults::min_log_level(), LevelFilter::Info);
    assert_eq!(lum_log::default::log_level(), LevelFilter::Info);
    assert_eq!(defaults::format(), PATTERN);
    assert_eq!(lum_log::default::format(), PATTERN);
}

#[test]
fn default_time_trigger_is_daily_and_modulated() {
    for c in [defaults::time_trigger_config(), lum_log::default::time_trigger_config()] {
        assert_eq!(c.interval, TimeTriggerInterval::Day(1));
        assert!(c.modulate);
        assert_eq!(c.max_random_delay, 0);
    }
}

#[test]
fn unwritable_log_path_is_a_file_error() {
    let r = defaults::config("/dev/null/sub/app.log", defaults::format(), defaults::time_trigger_config());
    assert!(matches!(r, Err(ConfigError::RollingFileAppenderError(_))));
    let (_, file) = lum_log::default::appenders("/dev/null/sub/app.log");
    assert!(file.is_err());
}

#[test]
fn resolve_fills_defaults() {
    let s = Builder::new(defaults::format()).resolve();
    assert_eq!(s.min_log_level, LevelFilter::Info);
    assert_eq!(s.colors.len(), 5);
    assert!(s.module_levels.is_empty());
    assert_eq!(s.outputs.len(), 1);
    assert!(matches!(s.outputs[0], Output::Console));
    assert_eq!(s.format, PATTERN);
    assert!(!s.is_debug_build);
}

#[test]
fn resolve_keeps_what_was_set() {
    let s = Builder::new("{m}{n}")
        .color(LevelFilter::Error, "blue".to_string())
        .color(LevelFilter::Error, "cyan".to_string())
        .min_log_level(LevelFilter::Warn)
        .module_level("a".to_string(), LevelFilter::Trace)
        .output(Output::Console)
        .output(Output::RollingFile("x.log".to_string()))
        .format("{l} {m}{n}")
        .is_debug_build(true)
        .resolve();
    assert_eq!(s.colors.len(), 2);
    let c = Config { colors: s.colors, min_log_level: s.min_log_level };
    assert_eq!(c.color_for(LevelFilter::Error), Color::Cyan);
    assert_eq!(c.color_for(LevelFilter::Warn), Color::White);
    assert_eq!(c.min_log_level, LevelFilter::Warn);
    assert_eq!(s.module_levels, vec![("a".to_string(), LevelFilter::Trace)]);
    assert_eq!(s.outputs.len(), 2);
    assert_eq!(s.format, "{l} {m}{n}");
    assert!(s.is_debug_build);
}

#[test]
fn plural_setters_replace() {
    let s = Builder::new("{m}")
        .module_level("a".to_string(), LevelFilter::Trace)
        .module_levels(vec![("b".to_string(), LevelFilter::Warn)])
        .output(Output::RollingFile("x.log".to_string()))
        .outputs(vec![Output::Console])
        .color(LevelFilter::Info, "red".to_string())
        .colors(vec![(LevelFilter::Warn, "blue".to_string())])
        .resolve();
    assert_eq!(s.module_levels, vec![("b".to_string(), LevelFilter::Warn)]);
    assert_eq!(s.outputs.len(), 1);
    assert!(matches!(s.outputs[0], Output::Console));
    assert_eq!(s.colors.len(), 1);
}

#[test]
fn invalid_module_name_is_a_build_error() {
    let mut slot = LoggerSlot::new();
    let r = Builder::new(defaults::format())
        .module_level("bad:::name".to_string(), LevelFilter::Debug)
        .apply(&mut slot);
    assert!(matches!(r, Err(ConfigError::ConfigBuildError(_))));
    assert!(!lum_log::is_set_up(&slot));
}

#[test]
fn config_error_messages_name_the_failure() {
    let r = defaults::config("/dev/null/sub/app.log", defaults::format(), defaults::time_trigger_config());
    match r {
        Err(e) => assert_eq!(e.message(), "Error creating rolling file appender"),
        Ok(_) => panic!("the log file cannot be created under /dev/null"),
    }
}

#[test]
fn appender_names_follow_outputs() {
    let names = lum_log::logger::appender_names(&vec![
        Output::Console,
        Output::RollingFile("logs/app.log".to_string()),
    ]);
    assert_eq!(names, vec!["sink0".to_string(), "sink1".to_string()]);
}

#[test]
fn every_output_is_attached_in_order() {
    let mut slot = LoggerSlot::new();
    let r = Builder::new(defaults::format())
        .outputs(vec![Output::Console, Output::Console])
        .apply(&mut slot);
    assert!(r.is_ok());
    assert!(lum_log::is_set_up(&slot));
    assert_eq!(slot.policy().unwrap().appenders, vec!["sink0".to_string(), "sink1".to_string()]);
}

#[test]
fn appender_names_count_past_nine() {
    let outputs: Vec<Output> = (0..12).map(|_| Output::Console).collect();
    let names = lum_log::logger::appender_names(&outputs);
    assert_eq!(names[9], "sink9");
    assert_eq!(names[10], "sink10");
    assert_eq!(names[11], "sink11");
    assert_eq!(lum_log::naming::decimal_text(305), "305");
}

#[test]
fn config_error_message_per_kind() {
    let mut slot = LoggerSlot::new();
    let r = Builder::new(defaults::format())
        .module_level("a:b".to_string(), LevelFilter::Debug)
        .apply(&mut slot);
    match r {
        Err(e) => assert_eq!(e.message(), "Error building log4rs config"),
        Ok(()) => panic!("a single colon is not a module separator"),
    }
}
