use lum_log::builder::Builder;
use lum_log::defaults::{self, ConfigError};
use lum_log::log::{Log, Metadata, Record};
use lum_log::logger::LoggerSlot;
use lum_log::is_set_up;

struct Silent;

impl Log for Silent {
    fn enabled(&self, _: &Metadata) -> bool {
        false
    }

    fn log(&self, _: &Record) {}

    fn flush(&self) {}
}

static SILENT: Silent = Silent;

#[test]
fn foreign_logger_blocks_install() {
    lum_log::log::set_logger(&SILENT).unwrap();
    let mut slot = LoggerSlot::new();
    let r = Builder::new(defaults::format()).apply(&mut slot);
    assert!(matches!(r, Err(ConfigError::SetLoggerError(_))));
    assert!(!is_set_up(&slot));
}
