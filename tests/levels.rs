use lum_log::color::{color_from_name, Color};
use lum_log::filter::{governs_module, merged_overrides, override_for, set_override, threshold, Filter};
use lum_log::level::{effective_min_level, passes, same_level, verbosity};
use lum_log::log::{Level, LevelFilter};
use lum_log::logger::{route, Route};

#[test]
fn debug_build_raises_floor_to_debug() {
    assert_eq!(effective_min_level(LevelFilter::Off, true), LevelFilter::Debug);
    assert_eq!(effective_min_level(LevelFilter::Error, true), LevelFilter::Debug);
    assert_eq!(effective_min_level(LevelFilter::Warn, true), LevelFilter::Debug);
    assert_eq!(effective_min_level(LevelFilter::Info, true), LevelFilter::Debug);
    assert_eq!(effective_min_level(LevelFilter::Debug, true), LevelFilter::Debug);
}

#[test]
fn debug_build_keeps_trace() {
    assert_eq!(effective_min_level(LevelFilter::Trace, true), LevelFilter::Trace);
}

#[test]
fn release_build_keeps_requested_level() {
    assert_eq!(effective_min_level(LevelFilter::Warn, false), LevelFilter::Warn);
    assert_eq!(effective_min_level(LevelFilter::Trace, false), LevelFilter::Trace);
}

#[test]
fn verbosity_orders_levels() {
    assert_eq!(verbosity(LevelFilter::Off), 0);
    assert_eq!(verbosity(LevelFilter::Info), 3);
    assert_eq!(verbosity(LevelFilter::Trace), 5);
    assert!(same_level(LevelFilter::Warn, LevelFilter::Warn));
    assert!(!same_level(LevelFilter::Warn, LevelFilter::Info));
}

#[test]
fn passes_compares_verbosity() {
    assert!(passes(LevelFilter::Warn, LevelFilter::Info));
    assert!(passes(LevelFilter::Info, LevelFilter::Info));
    assert!(!passes(LevelFilter::Debug, LevelFilter::Info));
    assert!(!passes(LevelFilter::Off, LevelFilter::Trace));
    assert!(!passes(LevelFilter::Error, LevelFilter::Off));
}

#[test]
fn known_color_names_resolve() {
    assert_eq!(color_from_name("red"), Color::Red);
    assert_eq!(color_from_name("yellow"), Color::Yellow);
    assert_eq!(color_from_name("green"), Color::Green);
    assert_eq!(color_from_name("magenta"), Color::Magenta);
    assert_eq!(color_from_name("cyan"), Color::Cyan);
    assert_eq!(color_from_name("black"), Color::Black);
    assert_eq!(color_from_name("blue"), Color::Blue);
    assert_eq!(color_from_name("white"), Color::White);
}

#[test]
fn unknown_color_name_falls_back_to_white() {
    assert_eq!(color_from_name("chartreuse"), Color::White);
    assert_eq!(color_from_name(""), Color::White);
    assert_eq!(color_from_name("Red"), Color::White);
    assert_eq!(color_from_name("redd"), Color::White);
}

fn overrides() -> Vec<(String, LevelFilter)> {
    vec![
        ("some_lib".to_string(), LevelFilter::Debug),
        ("some_other_lib".to_string(), LevelFilter::Trace),
        ("some_lib".to_string(), LevelFilter::Error),
    ]
}

#[test]
fn override_takes_precedence_over_global_minimum() {
    let o = overrides();
    assert_eq!(threshold(&o, "some_other_lib", LevelFilter::Warn), LevelFilter::Trace);
    assert_eq!(threshold(&o, "unrelated", LevelFilter::Warn), LevelFilter::Warn);
}

#[test]
fn later_override_wins() {
    let o = overrides();
    assert_eq!(override_for(&o, "some_lib"), Some(LevelFilter::Error));
    assert_eq!(override_for(&o, "none"), None);
}

#[test]
fn set_override_replaces_or_appends() {
    let mut o: Vec<(String, LevelFilter)> = Vec::new();
    set_override(&mut o, "a".to_string(), LevelFilter::Info);
    set_override(&mut o, "b".to_string(), LevelFilter::Warn);
    set_override(&mut o, "a".to_string(), LevelFilter::Trace);
    assert_eq!(o.len(), 2);
    assert_eq!(override_for(&o, "a"), Some(LevelFilter::Trace));
    assert_eq!(override_for(&o, "b"), Some(LevelFilter::Warn));
}

#[test]
fn merged_overrides_keep_one_entry_per_module() {
    let m = merged_overrides(&overrides());
    assert_eq!(m.len(), 2);
    assert_eq!(override_for(&m, "some_lib"), Some(LevelFilter::Error));
    assert_eq!(override_for(&m, "some_other_lib"), Some(LevelFilter::Trace));
}

#[test]
fn filter_uses_module_threshold() {
    let f = Filter {
        min_level: LevelFilter::Info,
        module_levels: merged_overrides(&overrides()),
    };
    assert!(f.is_enabled(LevelFilter::Trace, "some_other_lib"));
    assert!(!f.is_enabled(LevelFilter::Warn, "some_lib"));
    assert!(f.is_enabled(LevelFilter::Warn, "app"));
    assert!(!f.is_enabled(LevelFilter::Debug, "app"));
}

#[test]
fn route_before_setup_goes_to_console_streams() {
    assert_eq!(route(Level::Error, false), Route::Stderr);
    assert_eq!(route(Level::Warn, false), Route::Stdout);
    assert_eq!(route(Level::Info, false), Route::Stdout);
    assert_eq!(route(Level::Debug, false), Route::Stdout);
    assert_eq!(route(Level::Trace, false), Route::Stdout);
}

#[test]
fn route_after_setup_goes_to_logger() {
    assert_eq!(route(Level::Error, true), Route::Logger);
    assert_eq!(route(Level::Warn, true), Route::Logger);
    assert_eq!(route(Level::Trace, true), Route::Logger);
}

#[test]
fn override_governs_nested_modules() {
    assert!(governs_module("a::b", "a::b"));
    assert!(governs_module("a::b", "a::b::c"));
    assert!(!governs_module("a::b", "a::bc"));
    assert!(!governs_module("a::b", "a"));
    assert!(!governs_module("a::b", "a::b:"));
    assert!(!governs_module("a::b", "x::a::b"));
}

#[test]
fn nearest_enclosing_override_applies() {
    let o = vec![
        ("app".to_string(), LevelFilter::Warn),
        ("app::net::tls".to_string(), LevelFilter::Trace),
        ("app::net".to_string(), LevelFilter::Debug),
    ];
    assert_eq!(threshold(&o, "app", LevelFilter::Info), LevelFilter::Warn);
    assert_eq!(threshold(&o, "app::db", LevelFilter::Info), LevelFilter::Warn);
    assert_eq!(threshold(&o, "app::net", LevelFilter::Info), LevelFilter::Debug);
    assert_eq!(threshold(&o, "app::net::http", LevelFilter::Info), LevelFilter::Debug);
    assert_eq!(threshold(&o, "app::net::tls::x", LevelFilter::Info), LevelFilter::Trace);
    assert_eq!(threshold(&o, "application", LevelFilter::Info), LevelFilter::Info);
}
