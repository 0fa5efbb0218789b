use lum_log::builder::Builder;
use lum_log::color::Color;
use lum_log::config::Config;
use lum_log::defaults;
use lum_log::log::LevelFilter;
use lum_log::logger::LoggerSlot;
use lum_log::is_set_up;

#[test]
fn default_setup_then_reconfigure() {
    let mut slot = LoggerSlot::new();
    assert!(!is_set_up(&slot));
    assert!(slot.policy().is_none());

    let r = Builder::new(defaults::format()).config(Config::default()).apply(&mut slot);
    assert!(r.is_ok());
    assert!(is_set_up(&slot));
    let policy = slot.policy().unwrap();
    assert_eq!(policy.filter.min_level, LevelFilter::Info);
    assert!(policy.filter.is_enabled(LevelFilter::Warn, "app::module"));
    assert!(!policy.filter.is_enabled(LevelFilter::Debug, "app::module"));
    assert_eq!(policy.color_for(LevelFilter::Warn), Color::Yellow);
    assert_eq!(policy.appenders, vec!["sink0".to_string()]);
    assert_eq!(policy.colors.len(), 5);

    let second = Config {
        colors: vec![(LevelFilter::Warn, "blue".to_string())],
        min_log_level: LevelFilter::Error,
    };
    let r = Builder::new(defaults::format())
        .config(second)
        .module_level("noisy".to_string(), LevelFilter::Trace)
        .apply(&mut slot);
    assert!(r.is_ok());
    assert!(is_set_up(&slot));
    let policy = slot.policy().unwrap();
    assert_eq!(policy.filter.min_level, LevelFilter::Error);
    assert!(!policy.filter.is_enabled(LevelFilter::Warn, "app::module"));
    assert!(policy.filter.is_enabled(LevelFilter::Trace, "noisy"));
    assert_eq!(policy.color_for(LevelFilter::Warn), Color::Blue);
    assert_eq!(policy.color_for(LevelFilter::Error), Color::White);

    let r = Builder::new(defaults::format())
        .color(LevelFilter::Info, "no-such-color".to_string())
        .apply(&mut slot);
    assert!(r.is_ok());
    assert_eq!(slot.policy().unwrap().color_for(LevelFilter::Info), Color::White);
}
