use lum_log::builder::Builder;
use lum_log::defaults;
use lum_log::log::LevelFilter;
use lum_log::logger::LoggerSlot;

#[test]
fn debug_build_setup_logs_debug() {
    let mut slot = LoggerSlot::new();
    let r = Builder::new(defaults::format())
        .min_log_level(LevelFilter::Warn)
        .is_debug_build(true)
        .apply(&mut slot);
    assert!(r.is_ok());
    let policy = slot.policy().unwrap();
    assert_eq!(policy.filter.min_level, LevelFilter::Debug);
    assert_eq!(lum_log::log::max_level(), LevelFilter::Debug);
}
