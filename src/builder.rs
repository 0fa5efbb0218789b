use crate::backend::{config_appenders, config_loggers, config_root, config_sinks, texts, valid_logger_name};
use crate::config::{default_color, is_default_colors, resolved_color, Config};
use crate::defaults::{self, ConfigError};
use crate::filter::{same_overrides, threshold_spec};
use crate::level::effective_level_spec;
use crate::logger::{
    handed_plan,
    has_file_output,
    logger_plan,
    output_names,
    sinks_for,
    reflects,
    settings_accepted,
    setup,
    setup_post,
    LoggerSlot,
    Output,
    Settings,
};
use crate::color::Color;
use lum_libs::log::LevelFilter;
use vstd::prelude::*;
use vstd::string::StringExecFns;

verus! {

/// The color of `level` under optional explicit colors: the explicit
/// entries where given, the default colors otherwise.
pub open spec fn chosen_color(colors: Option<Seq<(LevelFilter, String)>>, level: LevelFilter) -> Color {
    match colors {
        Some(c) => resolved_color(c, level),
        None => default_color(level),
    }
}

/// Collects the configuration of a logger and applies it as the global
/// logger. Whatever is not set resolves to its default when it is applied.
#[derive(Debug)]
pub struct Builder {
    colors: Option<Vec<(LevelFilter, String)>>,
    min_log_level: Option<LevelFilter>,
    module_levels: Vec<(String, LevelFilter)>,
    outputs: Option<Vec<Output>>,
    format: String,
    is_debug_build: bool,
}

impl Builder {
    /// The explicit color entries, if any were given.
    pub closed spec fn colors_spec(&self) -> Option<Seq<(LevelFilter, String)>> {
        match self.colors {
            Some(c) => Some(c@),
            None => None,
        }
    }

    /// The explicit minimum level, if one was given.
    pub closed spec fn min_log_level_spec(&self) -> Option<LevelFilter> {
        self.min_log_level
    }

    /// The module overrides in the order they were given.
    pub closed spec fn module_levels_spec(&self) -> Seq<(String, LevelFilter)> {
        self.module_levels@
    }

    /// The explicit outputs, if any were given.
    pub closed spec fn outputs_spec(&self) -> Option<Seq<Output>> {
        match self.outputs {
            Some(o) => Some(o@),
            None => None,
        }
    }

    /// The log pattern.
    pub closed spec fn format_spec(&self) -> Seq<char> {
        self.format@
    }

    /// Whether this is a debug build.
    pub closed spec fn is_debug_build_spec(&self) -> bool {
        self.is_debug_build
    }

    /// The outputs that applying resolves to: those given, or the console.
    pub open spec fn resolved_outputs(&self) -> Seq<Output> {
        match self.outputs_spec() {
            Some(o) => o,
            None => seq![Output::Console],
        }
    }

    /// Whether log4rs accepts what this builder resolves to: every module
    /// name made of segments separated by `::`.
    pub open spec fn accepted_by_backend(&self) -> bool {
        forall|i: int|
            0 <= i < self.module_levels_spec().len() ==> valid_logger_name(
                #[trigger] self.module_levels_spec()[i].0@,
            )
    }

    /// The minimum level that applying resolves to.
    pub open spec fn resolved_min_level(&self) -> LevelFilter {
        match self.min_log_level_spec() {
            Some(l) => l,
            None => LevelFilter::Info,
        }
    }

    /// A builder with the given log pattern and nothing else set.
    pub fn new(format: &str) -> (r: Builder)
        ensures
            r.colors_spec() is None,
            r.min_log_level_spec() is None,
            r.module_levels_spec().len() == 0,
            r.outputs_spec() is None,
            r.format_spec() == format@,
            !r.is_debug_build_spec(),
    {
        Builder {
            colors: None,
            min_log_level: None,
            module_levels: Vec::new(),
            outputs: None,
            format: String::from_str(format),
            is_debug_build: false,
        }
    }

    /// Takes the colors and the minimum level from `config`.
    pub fn config(self, config: Config) -> (r: Builder)
        ensures
            r.colors_spec() == Some(config.colors@),
            r.min_log_level_spec() == Some(config.min_log_level),
            r.module_levels_spec() == self.module_levels_spec(),
            r.outputs_spec() == self.outputs_spec(),
            r.format_spec() == self.format_spec(),
            r.is_debug_build_spec() == self.is_debug_build_spec(),
    {
        Builder { colors: Some(config.colors), min_log_level: Some(config.min_log_level), ..self }
    }

    /// Replaces the color entries.
    pub fn colors(self, colors: Vec<(LevelFilter, String)>) -> (r: Builder)
        ensures
            r.colors_spec() == Some(colors@),
            r.min_log_level_spec() == self.min_log_level_spec(),
            r.module_levels_spec() == self.module_levels_spec(),
            r.outputs_spec() == self.outputs_spec(),
            r.format_spec() == self.format_spec(),
            r.is_debug_build_spec() == self.is_debug_build_spec(),
    {
        Builder { colors: Some(colors), ..self }
    }

    /// Adds a color entry; the last color given for a level wins.
    pub fn color(self, level: LevelFilter, color: String) -> (r: Builder)
        ensures
            r.colors_spec() == Some(
                match self.colors_spec() {
                    Some(c) => c,
                    None => Seq::empty(),
                }.push((level, color)),
            ),
            r.min_log_level_spec() == self.min_log_level_spec(),
            r.module_levels_spec() == self.module_levels_spec(),
            r.outputs_spec() == self.outputs_spec(),
            r.format_spec() == self.format_spec(),
            r.is_debug_build_spec() == self.is_debug_build_spec(),
    {
        let mut colors = match self.colors {
            Some(c) => c,
            None => Vec::new(),
        };
        colors.push((level, color));
        Builder { colors: Some(colors), ..self }
    }

    /// Sets the minimum level.
    pub fn min_log_level(self, min_log_level: LevelFilter) -> (r: Builder)
        ensures
            r.colors_spec() == self.colors_spec(),
            r.min_log_level_spec() == Some(min_log_level),
            r.module_levels_spec() == self.module_levels_spec(),
            r.outputs_spec() == self.outputs_spec(),
            r.format_spec() == self.format_spec(),
            r.is_debug_build_spec() == self.is_debug_build_spec(),
    {
        Builder { min_log_level: Some(min_log_level), ..self }
    }

    /// Replaces the module overrides.
    pub fn module_levels(self, module_levels: Vec<(String, LevelFilter)>) -> (r: Builder)
        ensures
            r.colors_spec() == self.colors_spec(),
            r.min_log_level_spec() == self.min_log_level_spec(),
            r.module_levels_spec() == module_levels@,
            r.outputs_spec() == self.outputs_spec(),
            r.format_spec() == self.format_spec(),
            r.is_debug_build_spec() == self.is_debug_build_spec(),
    {
        Builder { module_levels, ..self }
    }

    /// Adds a module override; the last level given for a module wins.
    pub fn module_level(self, module: String, level: LevelFilter) -> (r: Builder)
        ensures
            r.colors_spec() == self.colors_spec(),
            r.min_log_level_spec() == self.min_log_level_spec(),
            r.module_levels_spec() == self.module_levels_spec().push((module, level)),
            r.outputs_spec() == self.outputs_spec(),
            r.format_spec() == self.format_spec(),
            r.is_debug_build_spec() == self.is_debug_build_spec(),
    {
        let mut module_levels = self.module_levels;
        module_levels.push((module, level));
        Builder { module_levels, ..self }
    }

    /// Replaces the outputs.
    pub fn outputs(self, outputs: Vec<Output>) -> (r: Builder)
        ensures
            r.colors_spec() == self.colors_spec(),
            r.min_log_level_spec() == self.min_log_level_spec(),
            r.module_levels_spec() == self.module_levels_spec(),
            r.outputs_spec() == Some(outputs@),
            r.format_spec() == self.format_spec(),
            r.is_debug_build_spec() == self.is_debug_build_spec(),
    {
        Builder { outputs: Some(outputs), ..self }
    }

    /// Adds an output after those given so far.
    pub fn output(self, output: Output) -> (r: Builder)
        ensures
            r.colors_spec() == self.colors_spec(),
            r.min_log_level_spec() == self.min_log_level_spec(),
            r.module_levels_spec() == self.module_levels_spec(),
            r.outputs_spec() == Some(
                match self.outputs_spec() {
                    Some(o) => o,
                    None => Seq::empty(),
                }.push(output),
            ),
            r.format_spec() == self.format_spec(),
            r.is_debug_build_spec() == self.is_debug_build_spec(),
    {
        let mut outputs = match self.outputs {
            Some(o) => o,
            None => Vec::new(),
        };
        outputs.push(output);
        Builder { outputs: Some(outputs), ..self }
    }

    /// Replaces the log pattern given to `new`.
    pub fn format(self, format: &str) -> (r: Builder)
        ensures
            r.colors_spec() == self.colors_spec(),
            r.min_log_level_spec() == self.min_log_level_spec(),
            r.module_levels_spec() == self.module_levels_spec(),
            r.outputs_spec() == self.outputs_spec(),
            r.format_spec() == format@,
            r.is_debug_build_spec() == self.is_debug_build_spec(),
    {
        Builder { format: String::from_str(format), ..self }
    }

    /// Sets whether this is a debug build.
    pub fn is_debug_build(self, is_debug_build: bool) -> (r: Builder)
        ensures
            r.colors_spec() == self.colors_spec(),
            r.min_log_level_spec() == self.min_log_level_spec(),
            r.module_levels_spec() == self.module_levels_spec(),
            r.outputs_spec() == self.outputs_spec(),
            r.format_spec() == self.format_spec(),
            r.is_debug_build_spec() == is_debug_build,
    {
        Builder { is_debug_build, ..self }
    }

    /// Every parameter, with what was not set resolved to its default: the
    /// default colors, `Info`, and the console as the only output.
    pub fn resolve(self) -> (r: Settings)
        ensures
            forall|l: LevelFilter| #[trigger] resolved_color(r.colors@, l) == chosen_color(
                self.colors_spec(),
                l,
            ),
            self.colors_spec() matches Some(c) ==> r.colors@ == c,
            self.colors_spec() is None ==> is_default_colors(r.colors@),
            r.min_log_level == self.resolved_min_level(),
            r.module_levels@ == self.module_levels_spec(),
            r.outputs@ == self.resolved_outputs(),
            r.format@ == self.format_spec(),
            r.is_debug_build == self.is_debug_build_spec(),
    {
        let colors = match self.colors {
            Some(c) => c,
            None => Config::default().colors,
        };
        let min_log_level = match self.min_log_level {
            Some(l) => l,
            None => defaults::min_log_level(),
        };
        let outputs = match self.outputs {
            Some(o) => o,
            None => {
                let mut o: Vec<Output> = Vec::new();
                o.push(Output::Console);
                assert(o@ =~= seq![Output::Console]);
                o
            },
        };
        Settings {
            colors,
            min_log_level,
            module_levels: self.module_levels,
            outputs,
            format: self.format,
            is_debug_build: self.is_debug_build,
        }
    }

    /// Resolves the defaults and sets the logger up with the result; see
    /// `setup`.
    pub fn apply(self, slot: &mut LoggerSlot) -> (r: Result<(), ConfigError>)
        requires
            old(slot).wf(),
        ensures
            final(slot).wf(),
            r is Ok ==> final(slot).installed(),
            r is Ok ==> (final(slot).active() matches Some(p) && {
                &&& forall|l: LevelFilter| #[trigger] resolved_color(p.colors@, l) == chosen_color(
                    self.colors_spec(),
                    l,
                )
                &&& self.colors_spec() matches Some(c) ==> p.colors@ == c
                &&& self.colors_spec() is None ==> is_default_colors(p.colors@)
                &&& texts(p.appenders@) == output_names(self.resolved_outputs())
                &&& p.filter.wf()
                &&& p.filter.min_level == effective_level_spec(
                    self.resolved_min_level(),
                    self.is_debug_build_spec(),
                )
                &&& same_overrides(p.filter.module_levels@, self.module_levels_spec())
                &&& forall|m: Seq<char>|
                    #[trigger] threshold_spec(p.filter.module_levels@, m, p.filter.min_level)
                        == threshold_spec(self.module_levels_spec(), m, p.filter.min_level)
            }),
            r is Err ==> *final(slot) == *old(slot),
            r matches Err(ConfigError::RollingFileAppenderError(_)) ==> has_file_output(
                self.resolved_outputs(),
            ),
            r matches Err(ConfigError::ConfigBuildError(_)) ==> !self.accepted_by_backend(),
            !has_file_output(self.resolved_outputs()) && !self.accepted_by_backend() ==> (r matches Err(
                ConfigError::ConfigBuildError(_),
            )),
            r is Ok ==> (final(slot).handed() matches Some(c) && final(slot).active() matches Some(p)
                && {
                &&& config_appenders(c) == output_names(self.resolved_outputs())
                &&& sinks_for(config_sinks(c), self.resolved_outputs(), self.format_spec())
                &&& config_loggers(c) == logger_plan(p.filter.module_levels@)
                &&& config_root(c) == (
                    effective_level_spec(self.resolved_min_level(), self.is_debug_build_spec()),
                    output_names(self.resolved_outputs()),
                )
            }),
            old(slot).installed() ==> !(r matches Err(ConfigError::SetLoggerError(_))),
            old(slot).installed() && !has_file_output(self.resolved_outputs())
                && self.accepted_by_backend() ==> r is Ok,
    {
        let ghost b = self;
        let settings = self.resolve();
        let ghost s = settings;
        let r = setup(slot, settings);
        proof {
            assert(setup_post(*old(slot), s, *final(slot), r));
            assert(settings_accepted(s) == b.accepted_by_backend());
            if r is Ok {
                let p = final(slot).active()->Some_0;
                let c = final(slot).handed()->Some_0;
                assert(handed_plan(c, p, s));
            }
            if r is Ok {
                let p = final(slot).active()->Some_0;
                assert(reflects(p, s));
            }
        }
        r
    }
}

} // verus!
