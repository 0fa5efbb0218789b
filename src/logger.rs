use crate::backend::{
    SinkSpec,
    accepted,
    builder_sinks,
    config_sinks,
    build_config,
    builder_appenders,
    builder_loggers,
    config_appenders,
    config_loggers,
    config_root,
    texts,
    valid_logger_name,
    config_builder,
    init_config,
    set_config,
    with_console_appender,
    with_file_appender,
    with_logger,
};
use crate::color::Color;
use crate::config::{color_in, resolved_color};
use crate::defaults::{self, is_file_sink, ConfigError};
use lum_libs::log4rs::append::rolling_file::policy::compound::trigger::time::TimeTriggerConfig;
use crate::filter::{
    lemma_entry_at,
    lemma_entry_some,
    lemma_entry_present,
    lemma_same_threshold,
    merged_overrides,
    override_entry,
    same_overrides,
    threshold_spec,
    unique_modules,
    Filter,
};
use crate::naming::{lemma_sink_names_distinct, sink_name, sink_name_text};
use crate::level::{effective_level_spec, effective_min_level};
use lum_libs::log::{Level, LevelFilter, SetLoggerError};
use lum_libs::log4rs::Config as BackendConfig;
use lum_libs::log4rs::Handle;
use vstd::prelude::*;
use vstd::string::StringExecFns;

verus! {

/// Makes the record levels of the `log` crate visible to Verus, variants included.
#[verifier::external_type_specification]
pub struct ExLevel(Level);

/// A destination for log lines.
#[derive(Debug)]
pub enum Output {
    /// The standard output stream.
    Console,
    /// A file at the given path, rolled over daily.
    RollingFile(String),
}

/// Every parameter of a logger, with nothing left to a default.
#[derive(Debug)]
pub struct Settings {
    pub colors: Vec<(LevelFilter, String)>,
    pub min_log_level: LevelFilter,
    pub module_levels: Vec<(String, LevelFilter)>,
    pub outputs: Vec<Output>,
    pub format: String,
    pub is_debug_build: bool,
}

/// The policy of the installed logger: the colors recorded for its
/// levels (recorded only, since log4rs's highlighter takes no colors), its
/// filter, and the names of the appenders it writes to.
#[derive(Debug)]
pub struct Policy {
    pub colors: Vec<(LevelFilter, String)>,
    pub filter: Filter,
    pub appenders: Vec<String>,
}

impl Policy {
    /// The color recorded for `level` under this policy. These colors are
    /// recorded only: log4rs's highlighter colors each level in its own
    /// fixed color and takes no others.
    pub fn color_for(&self, level: LevelFilter) -> (r: Color)
        ensures
            r == resolved_color(self.colors@, level),
    {
        color_in(&self.colors, level)
    }
}

/// Whether `policy` is what `settings` ask for: their colors, the minimum
/// level after the debug-build flag, and their module overrides with the
/// later of two entries for a module winning, so that every module is held
/// to the threshold that `settings` give it.
pub open spec fn reflects(policy: Policy, settings: Settings) -> bool {
    &&& policy.colors@ == settings.colors@
    &&& policy.filter.min_level == effective_level_spec(
        settings.min_log_level,
        settings.is_debug_build,
    )
    &&& same_overrides(policy.filter.module_levels@, settings.module_levels@)
    &&& forall|m: Seq<char>|
        #[trigger] threshold_spec(policy.filter.module_levels@, m, policy.filter.min_level)
            == threshold_spec(settings.module_levels@, m, policy.filter.min_level)
    &&& texts(policy.appenders@) == output_names(settings.outputs@)
    &&& policy.filter.wf()
}

/// The process-wide logger slot: empty until a logger is installed, and
/// from then on holding the handle that reconfigures it.
pub struct LoggerSlot {
    handle: Option<Handle>,
    active: Option<Policy>,
    handed: Ghost<Option<BackendConfig>>,
}

impl LoggerSlot {
    /// A handle is held exactly when a policy is in force.
    pub closed spec fn wf(&self) -> bool {
        self.handle.is_some() == self.active.is_some() && self.handle.is_some()
            == self.handed@.is_some()
    }

    /// The log4rs configuration last handed to the installed logger.
    pub closed spec fn handed(&self) -> Option<BackendConfig> {
        self.handed@
    }

    /// Whether a logger has been installed.
    pub closed spec fn installed(&self) -> bool {
        self.handle.is_some()
    }

    /// The policy in force, once a logger is installed.
    pub closed spec fn active(&self) -> Option<Policy> {
        self.active
    }

    /// An empty slot.
    pub fn new() -> (r: LoggerSlot)
        ensures
            r.wf(),
            !r.installed(),
            r.active() is None,
            r.handed() is None,
    {
        LoggerSlot { handle: None, active: None, handed: Ghost(None) }
    }

    /// The policy in force, if a logger is installed.
    pub fn policy(&self) -> (r: Option<&Policy>)
        requires
            self.wf(),
        ensures
            r matches Some(p) ==> self.active() == Some(*p),
            r is None <==> !self.installed(),
    {
        self.active.as_ref()
    }

    /// Installs `config` as the global logger, or, where one is installed
    /// already, replaces its configuration; `policy` is recorded as the
    /// policy in force.
    fn install(&mut self, config: BackendConfig, policy: Policy) -> (r: Result<(), SetLoggerError>)
        requires
            old(self).wf(),
        ensures
            final(self).wf(),
            old(self).installed() ==> r is Ok,
            r is Ok ==> final(self).installed() && final(self).active() == Some(policy)
                && final(self).handed() == Some(config),
            r is Err ==> *final(self) == *old(self),
    {
        let ghost handed = config;
        match &self.handle {
            Some(handle) => {
                set_config(handle, config);
                self.handed = Ghost(Some(handed));
                self.active = Some(policy);
                Ok(())
            },
            None => match init_config(config) {
                Ok(handle) => {
                    self.handle = Some(handle);
                    self.handed = Ghost(Some(handed));
                    self.active = Some(policy);
                    Ok(())
                },
                Err(e) => Err(e),
            },
        }
    }
}

/// Whether the logger has been set up.
pub fn is_set_up(slot: &LoggerSlot) -> (r: bool)
    requires
        slot.wf(),
    ensures
        r == slot.installed(),
{
    slot.handle.is_some()
}

/// The appender names of the outputs, in order: each named by its position.
pub open spec fn output_names(outputs: Seq<Output>) -> Seq<Seq<char>> {
    Seq::new(outputs.len(), |i: int| sink_name(i as nat))
}

/// Whether `sink` is what `output` asks for with lines in `format`: the
/// console, or a daily-rolled file at the output's path.
pub open spec fn output_sink(sink: SinkSpec, output: Output, format: Seq<char>) -> bool {
    match output {
        Output::Console => sink == (format, None::<(Seq<char>, TimeTriggerConfig, (u32, u32, Seq<char>))>),
        Output::RollingFile(path) => is_file_sink(sink, path@, format, defaults::daily()),
    }
}

/// Whether `sinks` are the outputs, one for each in order.
pub open spec fn sinks_for(sinks: Seq<SinkSpec>, outputs: Seq<Output>, format: Seq<char>) -> bool {
    &&& sinks.len() == outputs.len()
    &&& forall|i: int| 0 <= i < outputs.len() ==> #[trigger] output_sink(sinks[i], outputs[i], format)
}

/// Whether `config` is the log4rs configuration planned for `settings`
/// under `policy`: an appender for each output, named by its position and
/// writing what the output asks for; a logger for each override of the
/// policy; a root logger at the policy's minimum writing to every appender.
pub open spec fn handed_plan(config: BackendConfig, policy: Policy, settings: Settings) -> bool {
    &&& config_appenders(config) == output_names(settings.outputs@)
    &&& sinks_for(config_sinks(config), settings.outputs@, settings.format@)
    &&& config_loggers(config) == logger_plan(policy.filter.module_levels@)
    &&& config_root(config) == (policy.filter.min_level, output_names(settings.outputs@))
}

/// The module loggers for overrides, as name and level, in order.
pub open spec fn logger_plan(overrides: Seq<(String, LevelFilter)>) -> Seq<(Seq<char>, LevelFilter)> {
    overrides.map_values(|e: (String, LevelFilter)| (e.0@, e.1))
}

/// Whether one of the outputs is a file.
pub open spec fn has_file_output(outputs: Seq<Output>) -> bool {
    exists|i: int| 0 <= i < outputs.len() && #[trigger] outputs[i] is RollingFile
}

/// Whether log4rs accepts the configuration that `settings` ask for: every
/// module name made of segments separated by `::`.
pub open spec fn settings_accepted(settings: Settings) -> bool {
    forall|i: int|
        0 <= i < settings.module_levels@.len() ==> valid_logger_name(
            #[trigger] settings.module_levels@[i].0@,
        )
}

/// The appender names of the outputs, in order.
pub fn appender_names(outputs: &Vec<Output>) -> (r: Vec<String>)
    ensures
        texts(r@) == output_names(outputs@),
{
    let mut r: Vec<String> = Vec::new();
    let mut i: usize = 0;
    while i < outputs.len()
        invariant
            i <= outputs@.len(),
            texts(r@) == output_names(outputs@.subrange(0, i as int)),
        decreases outputs@.len() - i,
    {
        let name = sink_name_text(i);
        let ghost before = r@;
        r.push(name);
        proof {
            assert(texts(r@) =~= texts(before).push(name@));
            assert(output_names(outputs@.subrange(0, i + 1)) =~= output_names(
                outputs@.subrange(0, i as int),
            ).push(sink_name(i as nat)));
        }
        i = i + 1;
    }
    assert(outputs@.subrange(0, i as int) =~= outputs@);
    r
}

/// The log4rs configuration for `settings`: the appenders `names`, one per
/// output in the given order, every output attached; one logger per override in the given order;
/// and a root logger at `min` writing to every appender. A file that cannot
/// be opened fails with its I/O error; a configuration that log4rs does not
/// accept fails with its errors.
pub fn backend_config(
    settings: &Settings,
    names: &Vec<String>,
    min: LevelFilter,
    overrides: &Vec<(String, LevelFilter)>,
) -> (r: Result<BackendConfig, ConfigError>)
    requires
        texts(names@) == output_names(settings.outputs@),
    ensures
        r matches Ok(c) ==> {
            &&& config_appenders(c) == output_names(settings.outputs@)
            &&& sinks_for(config_sinks(c), settings.outputs@, settings.format@)
            &&& config_root(c) == (min, output_names(settings.outputs@))
            &&& config_loggers(c) == logger_plan(overrides@)
        },
        r matches Err(e) ==> (e is RollingFileAppenderError || e is ConfigBuildError),
        r matches Err(ConfigError::RollingFileAppenderError(_)) ==> has_file_output(
            settings.outputs@,
        ),
        r matches Err(ConfigError::ConfigBuildError(_)) ==> !accepted(
            output_names(settings.outputs@),
            logger_plan(overrides@),
            output_names(settings.outputs@),
        ),
        !has_file_output(settings.outputs@) && accepted(
            output_names(settings.outputs@),
            logger_plan(overrides@),
            output_names(settings.outputs@),
        ) ==> r is Ok,
        !has_file_output(settings.outputs@) && !accepted(
            output_names(settings.outputs@),
            logger_plan(overrides@),
            output_names(settings.outputs@),
        ) ==> (r matches Err(ConfigError::ConfigBuildError(_))),
{
    let mut builder = config_builder();
    assert(texts(names@).len() == names@.len());
    let mut i: usize = 0;
    while i < settings.outputs.len()
        invariant
            i <= settings.outputs@.len(),
            texts(names@) == output_names(settings.outputs@),
            names@.len() == settings.outputs@.len(),
            builder_appenders(builder) == output_names(settings.outputs@.subrange(0, i as int)),
            sinks_for(builder_sinks(builder), settings.outputs@.subrange(0, i as int), settings.format@),
            builder_loggers(builder) == Seq::<(Seq<char>, LevelFilter)>::empty(),
        decreases settings.outputs@.len() - i,
    {
        proof {
            assert(names@[i as int]@ == texts(names@)[i as int]);
        }
        match &settings.outputs[i] {
            Output::Console => {
                builder =
                with_console_appender(
                    builder,
                    names[i].as_str(),
                    defaults::console_appender(settings.format.as_str()),
                );
            },
            Output::RollingFile(path) => {
                match defaults::rolling_file_appender(
                    path.as_str(),
                    settings.format.as_str(),
                    defaults::time_trigger_config(),
                ) {
                    Ok(appender) => {
                        builder = with_file_appender(builder, names[i].as_str(), appender);
                    },
                    Err(e) => {
                        assert(settings.outputs@[i as int] is RollingFile);
                        return Err(ConfigError::RollingFileAppenderError(e));
                    },
                }
            },
        }
        proof {
            assert(builder_appenders(builder) =~= output_names(
                settings.outputs@.subrange(0, i + 1),
            ));
            let sub = settings.outputs@.subrange(0, i + 1);
            assert forall|k: int| 0 <= k < sub.len() implies #[trigger] output_sink(
                builder_sinks(builder)[k],
                sub[k],
                settings.format@,
            ) by {
                if k < i {
                    assert(sub[k] == settings.outputs@.subrange(0, i as int)[k]);
                }
            }
        }
        i = i + 1;
    }
    assert(settings.outputs@.subrange(0, i as int) =~= settings.outputs@);
    let mut j: usize = 0;
    while j < overrides.len()
        invariant
            j <= overrides@.len(),
            builder_appenders(builder) == output_names(settings.outputs@),
            sinks_for(builder_sinks(builder), settings.outputs@, settings.format@),
            builder_loggers(builder) == logger_plan(overrides@.subrange(0, j as int)),
        decreases overrides@.len() - j,
    {
        builder = with_logger(builder, overrides[j].0.as_str(), overrides[j].1);
        proof {
            assert(builder_loggers(builder) =~= logger_plan(overrides@.subrange(0, j + 1)));
        }
        j = j + 1;
    }
    assert(overrides@.subrange(0, j as int) =~= overrides@);
    match build_config(builder, names, min) {
        Ok(c) => Ok(c),
        Err(e) => Err(ConfigError::ConfigBuildError(e)),
    }
}

/// What a call of `setup` with `settings` leaves: on success a logger is
/// installed and `settings` are in force; on failure the slot is as it was;
/// and once a logger is installed the failure is never that one is.
pub open spec fn setup_post(
    before: LoggerSlot,
    settings: Settings,
    after: LoggerSlot,
    r: Result<(), ConfigError>,
) -> bool {
    &&& r is Ok ==> after.installed()
    &&& r is Ok ==> (after.active() matches Some(p) && reflects(p, settings))
    &&& r is Ok ==> (after.active() matches Some(p) && after.handed() matches Some(c)
        && handed_plan(c, p, settings))
    &&& r is Err ==> after == before
    &&& r matches Err(ConfigError::RollingFileAppenderError(_)) ==> has_file_output(
        settings.outputs@,
    )
    &&& r matches Err(ConfigError::ConfigBuildError(_)) ==> !settings_accepted(settings)
    &&& !has_file_output(settings.outputs@) && !settings_accepted(settings) ==> (r matches Err(
        ConfigError::ConfigBuildError(_),
    ))
    &&& before.installed() ==> !(r matches Err(ConfigError::SetLoggerError(_)))
    &&& before.installed() && !has_file_output(settings.outputs@) && settings_accepted(settings)
        ==> r is Ok
}

/// Why a setup can fail: the global logger was taken by another mechanism
/// before any was installed here, a file output could not be opened, or
/// log4rs does not accept the outputs and module names. None of these
/// depends on the colors, so no color name makes a setup fail.
pub proof fn lemma_setup_failures(
    before: LoggerSlot,
    settings: Settings,
    after: LoggerSlot,
    r: Result<(), ConfigError>,
)
    requires
        setup_post(before, settings, after, r),
    ensures
        r matches Err(e) ==> {
            ||| e is SetLoggerError && !before.installed()
            ||| e is RollingFileAppenderError && has_file_output(settings.outputs@)
            ||| e is ConfigBuildError && !settings_accepted(settings)
        },
{
}

/// Settings with a module name that log4rs refuses give a plan that log4rs
/// refuses.
proof fn lemma_plan_rejected(settings: Settings, overrides: Seq<(String, LevelFilter)>)
    requires
        !settings_accepted(settings),
        same_overrides(overrides, settings.module_levels@),
    ensures
        !accepted(
            output_names(settings.outputs@),
            logger_plan(overrides),
            output_names(settings.outputs@),
        ),
{
    let ml = settings.module_levels@;
    let i = choose|i: int| 0 <= i < ml.len() && !valid_logger_name(#[trigger] ml[i].0@);
    let name = ml[i].0@;
    lemma_entry_some(ml, i);
    assert(override_entry(overrides, name) == override_entry(ml, name));
    lemma_entry_present(overrides, name);
    let j = choose|j: int| 0 <= j < overrides.len() && #[trigger] overrides[j].0@ == name;
    assert(logger_plan(overrides)[j].0 == name);
}

/// Settings that log4rs accepts give a plan that log4rs accepts.
proof fn lemma_plan_accepted(settings: Settings, overrides: Seq<(String, LevelFilter)>)
    requires
        settings_accepted(settings),
        unique_modules(overrides),
        same_overrides(overrides, settings.module_levels@),
    ensures
        accepted(
            output_names(settings.outputs@),
            logger_plan(overrides),
            output_names(settings.outputs@),
        ),
{
    let names = output_names(settings.outputs@);
    let loggers = logger_plan(overrides);
    let ml = settings.module_levels@;
    assert forall|i: int, j: int|
        0 <= i < names.len() && 0 <= j < names.len() && i != j implies names[i] != names[j] by {
        lemma_sink_names_distinct(i as nat, j as nat);
    }
    assert forall|i: int| 0 <= i < names.len() implies names.contains(#[trigger] names[i]) by {}
    let logger_names = loggers.map_values(|l: (Seq<char>, LevelFilter)| l.0);
    assert forall|i: int, j: int|
        0 <= i < logger_names.len() && 0 <= j < logger_names.len() && i != j implies logger_names[i]
        != logger_names[j] by {
        assert(logger_names[i] == overrides[i].0@);
        assert(logger_names[j] == overrides[j].0@);
    }
    assert forall|i: int| 0 <= i < loggers.len() implies valid_logger_name(#[trigger] loggers[i].0) by {
        let name = overrides[i].0@;
        lemma_entry_at(overrides, i);
        assert(override_entry(ml, name) == override_entry(overrides, name));
        lemma_entry_present(ml, name);
        let k = choose|k: int| 0 <= k < ml.len() && #[trigger] ml[k].0@ == name;
        assert(valid_logger_name(ml[k].0@));
    }
}

/// Setting up twice: after a first successful setup, a second one with
/// other settings cannot fail because a logger is installed already, and
/// succeeds when it writes to no file and log4rs accepts it; where
/// it succeeds, the second settings are in force, and where it fails, the
/// first ones still are.
pub proof fn lemma_setup_twice(
    s0: LoggerSlot,
    s1: LoggerSlot,
    s2: LoggerSlot,
    first: Settings,
    second: Settings,
    r1: Result<(), ConfigError>,
    r2: Result<(), ConfigError>,
)
    requires
        setup_post(s0, first, s1, r1),
        setup_post(s1, second, s2, r2),
        r1 is Ok,
    ensures
        !(r2 matches Err(ConfigError::SetLoggerError(_))),
        s2.installed(),
        r2 is Ok ==> (s2.active() matches Some(p) && reflects(p, second)),
        r2 is Ok ==> (s2.active() matches Some(p) && s2.handed() matches Some(c) && handed_plan(
            c,
            p,
            second,
        )),
        r2 is Err ==> (s2.active() matches Some(p) && reflects(p, first)),
        !has_file_output(second.outputs@) && settings_accepted(second) ==> r2 is Ok,
{
}

/// Sets the logger up with `settings`: builds its configuration, then
/// installs it as the global logger or, where one is installed already,
/// replaces that logger's configuration. Nothing is installed or changed
/// when building fails, and setting up again never fails for the reason
/// that a logger is installed already.
pub fn setup(slot: &mut LoggerSlot, settings: Settings) -> (r: Result<(), ConfigError>)
    requires
        old(slot).wf(),
    ensures
        final(slot).wf(),
        setup_post(*old(slot), settings, *final(slot), r),
{
    let min = effective_min_level(settings.min_log_level, settings.is_debug_build);
    let overrides = merged_overrides(&settings.module_levels);
    let names = appender_names(&settings.outputs);
    proof {
        if settings_accepted(settings) {
            lemma_plan_accepted(settings, overrides@);
        } else {
            lemma_plan_rejected(settings, overrides@);
        }
    }
    let config = match backend_config(&settings, &names, min, &overrides) {
        Ok(c) => c,
        Err(e) => {
            return Err(e);
        },
    };
    let ghost s = settings;
    let Settings { colors, min_log_level: _, module_levels: _, outputs: _, format: _, is_debug_build: _ } = settings;
    let policy = Policy {
        colors,
        filter: Filter { min_level: min, module_levels: overrides },
        appenders: names,
    };
    assert forall|m: Seq<char>|
        #[trigger] threshold_spec(policy.filter.module_levels@, m, min) == threshold_spec(
            s.module_levels@,
            m,
            min,
        ) by {
        lemma_same_threshold(policy.filter.module_levels@, s.module_levels@, m, min);
    }
    assert(reflects(policy, s));
    let ghost handed = config;
    assert(handed_plan(handed, policy, s));
    match slot.install(config, policy) {
        Ok(()) => Ok(()),
        Err(e) => Err(ConfigError::SetLoggerError(e)),
    }
}

/// Where a log call writes its message.
#[derive(PartialEq, Eq, Structural, Clone, Copy, Debug)]
pub enum Route {
    /// Through the installed logger, with its formatting and filtering.
    Logger,
    /// Straight to the standard output stream.
    Stdout,
    /// Straight to the standard error stream.
    Stderr,
}

/// Where a call at `level` writes: through the logger once it is set up;
/// before that, errors to the standard error stream and everything else to
/// the standard output stream.
pub fn route(level: Level, set_up: bool) -> (r: Route)
    ensures
        set_up ==> r == Route::Logger,
        !set_up && level == Level::Error ==> r == Route::Stderr,
        !set_up && level != Level::Error ==> r == Route::Stdout,
{
    if set_up {
        Route::Logger
    } else {
        match level {
            Level::Error => Route::Stderr,
            _ => Route::Stdout,
        }
    }
}

} // verus!
