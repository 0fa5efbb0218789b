use lum_libs::log::LevelFilter;
use vstd::prelude::*;

verus! {

/// Makes the level taxonomy of the `log` crate visible to Verus, variants included.
#[verifier::external_type_specification]
pub struct ExLevelFilter(LevelFilter);

/// Verbosity of a level: `Off` is the least verbose, `Trace` the most.
pub open spec fn rank(l: LevelFilter) -> nat {
    match l {
        LevelFilter::Off => 0,
        LevelFilter::Error => 1,
        LevelFilter::Warn => 2,
        LevelFilter::Info => 3,
        LevelFilter::Debug => 4,
        LevelFilter::Trace => 5,
    }
}

/// The minimum level in force once the debug-build flag has been applied:
/// a debug build raises the floor to at least `Debug` and never lowers it.
pub open spec fn effective_level_spec(min: LevelFilter, is_debug_build: bool) -> LevelFilter {
    if is_debug_build && rank(min) < rank(LevelFilter::Debug) {
        LevelFilter::Debug
    } else {
        min
    }
}

/// Executable verbosity of a level.
pub fn verbosity(l: LevelFilter) -> (r: u8)
    ensures
        r as nat == rank(l),
{
    match l {
        LevelFilter::Off => 0,
        LevelFilter::Error => 1,
        LevelFilter::Warn => 2,
        LevelFilter::Info => 3,
        LevelFilter::Debug => 4,
        LevelFilter::Trace => 5,
    }
}

/// Whether two levels are the same level.
pub fn same_level(a: LevelFilter, b: LevelFilter) -> (r: bool)
    ensures
        r == (a == b),
{
    let r = verbosity(a) == verbosity(b);
    assert(r ==> a == b) by {
        if r {
            assert(rank(a) == rank(b));
        }
    }
    r
}

/// Whether a record at `record` passes a threshold of `threshold`.
pub fn passes(record: LevelFilter, threshold: LevelFilter) -> (r: bool)
    ensures
        r == (record != LevelFilter::Off && rank(record) <= rank(threshold)),
{
    match record {
        LevelFilter::Off => false,
        _ => verbosity(record) <= verbosity(threshold),
    }
}

/// The minimum level in force for a requested minimum and the debug-build flag.
pub fn effective_min_level(min: LevelFilter, is_debug_build: bool) -> (r: LevelFilter)
    ensures
        r == effective_level_spec(min, is_debug_build),
{
    if is_debug_build && verbosity(min) < verbosity(LevelFilter::Debug) {
        LevelFilter::Debug
    } else {
        min
    }
}

/// A debug build never makes the logger less verbose than requested, and it
/// makes it at least as verbose as `Debug`; without a debug build the
/// requested level stands as it is.
pub proof fn lemma_debug_floor(min: LevelFilter)
    ensures
        rank(effective_level_spec(min, true)) >= rank(min),
        rank(effective_level_spec(min, true)) >= rank(LevelFilter::Debug),
        min != LevelFilter::Trace ==> effective_level_spec(min, true) == LevelFilter::Debug,
        min == LevelFilter::Trace ==> effective_level_spec(min, true) == LevelFilter::Trace,
        effective_level_spec(min, false) == min,
{
}

} // verus!
