use crate::color::{color_from_name, color_named, lemma_color_names, Color};
use crate::level::same_level;
use lum_libs::log::LevelFilter;
use vstd::prelude::*;
use vstd::string::StringExecFns;

verus! {

/// The color name that the last entry for `level` gives, if any entry does.
pub open spec fn color_entry(colors: Seq<(LevelFilter, String)>, level: LevelFilter) -> Option<
    Seq<char>,
>
    decreases colors.len(),
{
    if colors.len() == 0 {
        None
    } else if colors.last().0 == level {
        Some(colors.last().1@)
    } else {
        color_entry(colors.drop_last(), level)
    }
}

/// The color recorded for a level: the named color of its entry, white
/// where it has none.
pub open spec fn resolved_color(colors: Seq<(LevelFilter, String)>, level: LevelFilter) -> Color {
    match color_entry(colors, level) {
        Some(name) => color_named(name),
        None => Color::White,
    }
}

/// The color recorded for each level by default.
pub open spec fn default_color(level: LevelFilter) -> Color {
    match level {
        LevelFilter::Error => Color::Red,
        LevelFilter::Warn => Color::Yellow,
        LevelFilter::Info => Color::Green,
        LevelFilter::Debug => Color::Magenta,
        LevelFilter::Trace => Color::Cyan,
        LevelFilter::Off => Color::White,
    }
}

/// Exactly the default color entries, in this order: red errors, yellow
/// warnings, green info, magenta debug, cyan trace.
pub open spec fn is_default_colors(c: Seq<(LevelFilter, String)>) -> bool {
    &&& c.len() == 5
    &&& c[0].0 == LevelFilter::Error && c[0].1@ == "red"@
    &&& c[1].0 == LevelFilter::Warn && c[1].1@ == "yellow"@
    &&& c[2].0 == LevelFilter::Info && c[2].1@ == "green"@
    &&& c[3].0 == LevelFilter::Debug && c[3].1@ == "magenta"@
    &&& c[4].0 == LevelFilter::Trace && c[4].1@ == "cyan"@
}

/// No level has two color entries.
pub open spec fn unique_levels(colors: Seq<(LevelFilter, String)>) -> bool {
    forall|i: int, j: int|
        0 <= i < colors.len() && 0 <= j < colors.len() && i != j ==> colors[i].0 != colors[j].0
}

/// The levels that have a color entry.
pub open spec fn colored_levels(colors: Seq<(LevelFilter, String)>) -> Set<LevelFilter> {
    Set::new(|l: LevelFilter| exists|i: int| 0 <= i < colors.len() && colors[i].0 == l)
}

/// The color recorded for `level` under the entries `colors`.
pub fn color_in(colors: &Vec<(LevelFilter, String)>, level: LevelFilter) -> (r: Color)
    ensures
        r == resolved_color(colors@, level),
{
    let mut i: usize = colors.len();
    assert(colors@.subrange(0, i as int) =~= colors@);
    while i > 0
        invariant
            i <= colors@.len(),
            color_entry(colors@.subrange(0, i as int), level) == color_entry(colors@, level),
        decreases i,
    {
        assert(colors@.subrange(0, i as int).drop_last() =~= colors@.subrange(0, i - 1));
        let entry = &colors[i - 1];
        if same_level(entry.0, level) {
            return color_from_name(entry.1.as_str());
        }
        i = i - 1;
    }
    assert(colors@.subrange(0, 0) =~= Seq::<(LevelFilter, String)>::empty());
    Color::White
}

/// The user-configurable part of the logging policy: a color per level and
/// the minimum level. The colors are recorded with the installed policy;
/// log4rs's highlighter renders each level in its own fixed color and
/// cannot take them.
#[derive(Debug)]
pub struct Config {
    pub colors: Vec<(LevelFilter, String)>,
    pub min_log_level: LevelFilter,
}

impl Config {
    /// Each level has at most one color entry.
    pub open spec fn wf(&self) -> bool {
        unique_levels(self.colors@)
    }

    /// The color recorded for `level` under this configuration.
    pub fn color_for(&self, level: LevelFilter) -> (r: Color)
        ensures
            r == resolved_color(self.colors@, level),
    {
        color_in(&self.colors, level)
    }
}

impl Default for Config {
    /// Red errors, yellow warnings, green info, magenta debug, cyan trace,
    /// and `Info` as the minimum level.
    fn default() -> (r: Config)
        ensures
            r.wf(),
            r.colors@.len() == 5,
            is_default_colors(r.colors@),
            colored_levels(r.colors@) =~= set![
                LevelFilter::Error,
                LevelFilter::Warn,
                LevelFilter::Info,
                LevelFilter::Debug,
                LevelFilter::Trace,
            ],
            color_entry(r.colors@, LevelFilter::Error) == Some("red"@),
            color_entry(r.colors@, LevelFilter::Warn) == Some("yellow"@),
            color_entry(r.colors@, LevelFilter::Info) == Some("green"@),
            color_entry(r.colors@, LevelFilter::Debug) == Some("magenta"@),
            color_entry(r.colors@, LevelFilter::Trace) == Some("cyan"@),
            color_entry(r.colors@, LevelFilter::Off) is None,
            forall|l: LevelFilter| #[trigger] resolved_color(r.colors@, l) == default_color(l),
            r.min_log_level == LevelFilter::Info,
    {
        let mut colors: Vec<(LevelFilter, String)> = Vec::new();
        colors.push((LevelFilter::Error, String::from_str("red")));
        colors.push((LevelFilter::Warn, String::from_str("yellow")));
        colors.push((LevelFilter::Info, String::from_str("green")));
        colors.push((LevelFilter::Debug, String::from_str("magenta")));
        colors.push((LevelFilter::Trace, String::from_str("cyan")));
        let r = Config { colors, min_log_level: LevelFilter::Info };
        let ghost c = r.colors@;
        assert(c.drop_last() =~= c.subrange(0, 4));
        assert(c.subrange(0, 4).drop_last() =~= c.subrange(0, 3));
        assert(c.subrange(0, 3).drop_last() =~= c.subrange(0, 2));
        assert(c.subrange(0, 2).drop_last() =~= c.subrange(0, 1));
        assert(c.subrange(0, 1).drop_last() =~= Seq::<(LevelFilter, String)>::empty());
        proof {
            reveal_with_fuel(color_entry, 6);
            lemma_color_names();
        }
        assert forall|l: LevelFilter| #[trigger] resolved_color(c, l) == default_color(l) by {
            match l {
                LevelFilter::Off => {},
                LevelFilter::Error => {},
                LevelFilter::Warn => {},
                LevelFilter::Info => {},
                LevelFilter::Debug => {},
                LevelFilter::Trace => {},
            }
        }
        assert(colored_levels(c) =~= set![
            LevelFilter::Error,
            LevelFilter::Warn,
            LevelFilter::Info,
            LevelFilter::Debug,
            LevelFilter::Trace,
        ]) by {
            assert(c[0].0 == LevelFilter::Error);
            assert(c[1].0 == LevelFilter::Warn);
            assert(c[2].0 == LevelFilter::Info);
            assert(c[3].0 == LevelFilter::Debug);
            assert(c[4].0 == LevelFilter::Trace);
        }
        r
    }
}

} // verus!
