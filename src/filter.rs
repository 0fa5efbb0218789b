use crate::level::{passes, rank};
use crate::text::same_text;
use vstd::string::StrSliceExecFns;
use lum_libs::log::LevelFilter;
use vstd::prelude::*;

verus! {

/// The level that the last override for `module` sets, if there is one.
pub open spec fn override_entry(overrides: Seq<(String, LevelFilter)>, module: Seq<char>) -> Option<
    LevelFilter,
>
    decreases overrides.len(),
{
    if overrides.len() == 0 {
        None
    } else if overrides.last().0@ == module {
        Some(overrides.last().1)
    } else {
        override_entry(overrides.drop_last(), module)
    }
}

/// Whether an override for `name` applies to records of `module`: the
/// module itself, or one nested in it by `::`.
pub open spec fn governs(name: Seq<char>, module: Seq<char>) -> bool {
    name == module || (name.len() + 2 <= module.len() && module.subrange(0, name.len() as int)
        == name && module[name.len() as int] == ':' && module[name.len() + 1int] == ':')
}

/// The override that applies to `module`: of those that govern it, the one
/// with the longest name, the later one on a tie.
pub open spec fn governing(overrides: Seq<(String, LevelFilter)>, module: Seq<char>) -> Option<
    (String, LevelFilter),
>
    decreases overrides.len(),
{
    if overrides.len() == 0 {
        None
    } else {
        let rest = governing(overrides.drop_last(), module);
        let last = overrides.last();
        if governs(last.0@, module) && (rest is None || rest->Some_0.0@.len() <= last.0@.len()) {
            Some(last)
        } else {
            rest
        }
    }
}

/// The threshold for records of `module`: the level of the override that
/// governs it where one does, the global minimum otherwise.
pub open spec fn threshold_spec(
    overrides: Seq<(String, LevelFilter)>,
    module: Seq<char>,
    min: LevelFilter,
) -> LevelFilter {
    match governing(overrides, module) {
        Some(e) => e.1,
        None => min,
    }
}

/// No module has two overrides.
pub open spec fn unique_modules(overrides: Seq<(String, LevelFilter)>) -> bool {
    forall|i: int, j: int|
        0 <= i < overrides.len() && 0 <= j < overrides.len() && i != j ==> overrides[i].0@
            != overrides[j].0@
}

/// Two override lists that give every module the same level.
pub open spec fn same_overrides(a: Seq<(String, LevelFilter)>, b: Seq<(String, LevelFilter)>) -> bool {
    forall|m: Seq<char>| #[trigger] override_entry(a, m) == override_entry(b, m)
}

/// The entry of a module that has one override is its override.
pub proof fn lemma_entry_at(overrides: Seq<(String, LevelFilter)>, k: int)
    requires
        unique_modules(overrides),
        0 <= k < overrides.len(),
    ensures
        override_entry(overrides, overrides[k].0@) == Some(overrides[k].1),
    decreases overrides.len(),
{
    if k < overrides.len() - 1 {
        lemma_entry_at(overrides.drop_last(), k);
    }
}

/// A module's own override governs it, ahead of those of enclosing modules.
pub proof fn lemma_own_override_governs(overrides: Seq<(String, LevelFilter)>, module: Seq<char>)
    requires
        override_entry(overrides, module) is Some,
    ensures
        governing(overrides, module) matches Some(e) && e.0@ == module && Some(e.1)
            == override_entry(overrides, module),
    decreases overrides.len(),
{
    let rest = overrides.drop_last();
    let last = overrides.last();
    if last.0@ == module {
        if governing(rest, module) is Some {
            lemma_governing_governs(rest, module);
        }
    } else {
        lemma_own_override_governs(rest, module);
    }
}

/// The override that governs a module does govern it.
proof fn lemma_governing_governs(overrides: Seq<(String, LevelFilter)>, module: Seq<char>)
    requires
        governing(overrides, module) is Some,
    ensures
        governs(governing(overrides, module)->Some_0.0@, module),
    decreases overrides.len(),
{
    let rest = overrides.drop_last();
    if governing(rest, module) is Some {
        lemma_governing_governs(rest, module);
    }
}

/// A module with an entry has an override.
pub proof fn lemma_entry_some(overrides: Seq<(String, LevelFilter)>, k: int)
    requires
        0 <= k < overrides.len(),
    ensures
        override_entry(overrides, overrides[k].0@) is Some,
    decreases overrides.len(),
{
    if k < overrides.len() - 1 && overrides.last().0@ != overrides[k].0@ {
        lemma_entry_some(overrides.drop_last(), k);
    }
}

/// A module that has an override has an entry.
pub proof fn lemma_entry_present(overrides: Seq<(String, LevelFilter)>, name: Seq<char>)
    requires
        override_entry(overrides, name) is Some,
    ensures
        exists|j: int| 0 <= j < overrides.len() && #[trigger] overrides[j].0@ == name,
    decreases overrides.len(),
{
    let rest = overrides.drop_last();
    if overrides.last().0@ == name {
        assert(overrides[overrides.len() - 1].0@ == name);
    } else {
        lemma_entry_present(rest, name);
        let j = choose|j: int| 0 <= j < rest.len() && #[trigger] rest[j].0@ == name;
        assert(overrides[j].0@ == name);
    }
}

/// What `governing` picks: an override that governs the module, whose
/// level is the last one given for its name, and no governing override has
/// a longer name; where it picks none, none governs.
proof fn lemma_governing_is_longest(overrides: Seq<(String, LevelFilter)>, module: Seq<char>)
    ensures
        governing(overrides, module) is None ==> forall|i: int|
            0 <= i < overrides.len() ==> !governs(#[trigger] overrides[i].0@, module),
        governing(overrides, module) matches Some(e) ==> {
            &&& governs(e.0@, module)
            &&& override_entry(overrides, e.0@) == Some(e.1)
            &&& forall|i: int|
                0 <= i < overrides.len() && governs(#[trigger] overrides[i].0@, module)
                    ==> overrides[i].0@.len() <= e.0@.len()
        },
    decreases overrides.len(),
{
    if overrides.len() > 0 {
        let rest = overrides.drop_last();
        let last = overrides.last();
        let n = overrides.len() - 1;
        lemma_governing_is_longest(rest, module);
        assert(forall|i: int| 0 <= i < n ==> #[trigger] rest[i] == overrides[i]);
        assert(overrides[n] == last);
        let r = governing(rest, module);
        if governs(last.0@, module) && (r is None || r->Some_0.0@.len() <= last.0@.len()) {
            assert forall|i: int|
                0 <= i < overrides.len() && governs(#[trigger] overrides[i].0@, module)
                    implies overrides[i].0@.len() <= last.0@.len() by {
                if i < n {
                    assert(governs(rest[i].0@, module));
                }
            }
        } else if let Some(e) = r {
            assert(last.0@ != e.0@);
            assert forall|i: int|
                0 <= i < overrides.len() && governs(#[trigger] overrides[i].0@, module)
                    implies overrides[i].0@.len() <= e.0@.len() by {
                if i < n {
                    assert(governs(rest[i].0@, module));
                }
            }
        } else {
            assert forall|i: int| 0 <= i < overrides.len() implies !governs(
                #[trigger] overrides[i].0@,
                module,
            ) by {
                if i < n {
                    assert(!governs(rest[i].0@, module));
                }
            }
        }
    }
}

/// Two names of the same length that both govern a module are the same name.
proof fn lemma_governing_names_agree(a: Seq<char>, b: Seq<char>, module: Seq<char>)
    requires
        governs(a, module),
        governs(b, module),
        a.len() == b.len(),
    ensures
        a == b,
{
}

/// Overrides that give every module name the same level hold every module,
/// nested ones included, to the same threshold.
pub proof fn lemma_same_threshold(
    a: Seq<(String, LevelFilter)>,
    b: Seq<(String, LevelFilter)>,
    module: Seq<char>,
    min: LevelFilter,
)
    requires
        same_overrides(a, b),
    ensures
        threshold_spec(a, module, min) == threshold_spec(b, module, min),
{
    lemma_governing_is_longest(a, module);
    lemma_governing_is_longest(b, module);
    if let Some(ea) = governing(a, module) {
        assert(override_entry(b, ea.0@) == Some(ea.1));
        lemma_entry_present(b, ea.0@);
        let j = choose|j: int| 0 <= j < b.len() && #[trigger] b[j].0@ == ea.0@;
        assert(governs(b[j].0@, module));
    }
    if let Some(eb) = governing(b, module) {
        assert(override_entry(a, eb.0@) == Some(eb.1));
        lemma_entry_present(a, eb.0@);
        let j = choose|j: int| 0 <= j < a.len() && #[trigger] a[j].0@ == eb.0@;
        assert(governs(a[j].0@, module));
    }
    if governing(a, module) is Some && governing(b, module) is Some {
        let ea = governing(a, module)->Some_0;
        let eb = governing(b, module)->Some_0;
        lemma_governing_names_agree(ea.0@, eb.0@, module);
    }
}

/// The override that the last entry for `module` sets, found from the end.
pub fn override_for(overrides: &Vec<(String, LevelFilter)>, module: &str) -> (r: Option<LevelFilter>)
    ensures
        r == override_entry(overrides@, module@),
{
    let mut i: usize = overrides.len();
    assert(overrides@.subrange(0, i as int) =~= overrides@);
    while i > 0
        invariant
            i <= overrides@.len(),
            override_entry(overrides@.subrange(0, i as int), module@) == override_entry(
                overrides@,
                module@,
            ),
        decreases i,
    {
        assert(overrides@.subrange(0, i as int).drop_last() =~= overrides@.subrange(0, i - 1));
        if same_text(overrides[i - 1].0.as_str(), module) {
            return Some(overrides[i - 1].1);
        }
        i = i - 1;
    }
    assert(overrides@.subrange(0, 0) =~= Seq::<(String, LevelFilter)>::empty());
    None
}

/// Whether an override for `name` applies to records of `module`.
pub fn governs_module(name: &str, module: &str) -> (r: bool)
    ensures
        r == governs(name@, module@),
{
    let n = name.unicode_len();
    let m = module.unicode_len();
    if n == m {
        return same_text(name, module);
    }
    if m < 2 || n > m - 2 {
        return false;
    }
    let mut i: usize = 0;
    while i < n
        invariant
            n == name@.len(),
            m == module@.len(),
            n + 2 <= m,
            i <= n,
            forall|j: int| 0 <= j < i ==> module@[j] == name@[j],
        decreases n - i,
    {
        if name.get_char(i) != module.get_char(i) {
            assert(module@.subrange(0, n as int)[i as int] != name@[i as int]);
            return false;
        }
        i = i + 1;
    }
    assert(module@.subrange(0, n as int) =~= name@);
    module.get_char(n) == ':' && module.get_char(n + 1) == ':'
}

/// The threshold that records of `module` are held to.
pub fn threshold(overrides: &Vec<(String, LevelFilter)>, module: &str, min: LevelFilter) -> (r:
    LevelFilter)
    ensures
        r == threshold_spec(overrides@, module@, min),
{
    let mut best: Option<usize> = None;
    let mut i: usize = 0;
    while i < overrides.len()
        invariant
            i <= overrides@.len(),
            match best {
                Some(k) => k < i && governing(overrides@.subrange(0, i as int), module@) == Some(
                    overrides@[k as int],
                ),
                None => governing(overrides@.subrange(0, i as int), module@) is None,
            },
        decreases overrides@.len() - i,
    {
        let ghost prefix = overrides@.subrange(0, i + 1);
        assert(prefix.drop_last() =~= overrides@.subrange(0, i as int));
        let name = overrides[i].0.as_str();
        if governs_module(name, module) {
            let longer = match best {
                Some(k) => overrides[k].0.unicode_len() <= name.unicode_len(),
                None => true,
            };
            if longer {
                best = Some(i);
            }
        }
        i = i + 1;
    }
    assert(overrides@.subrange(0, i as int) =~= overrides@);
    match best {
        Some(k) => overrides[k].1,
        None => min,
    }
}

/// Sets the override of `module` to `level`, replacing an earlier one.
pub fn set_override(overrides: &mut Vec<(String, LevelFilter)>, module: String, level: LevelFilter)
    requires
        unique_modules(old(overrides)@),
    ensures
        unique_modules(final(overrides)@),
        override_entry(final(overrides)@, module@) == Some(level),
        forall|m: Seq<char>|
            m != module@ ==> #[trigger] override_entry(final(overrides)@, m) == override_entry(
                old(overrides)@,
                m,
            ),
{
    let ghost before = overrides@;
    let mut i: usize = 0;
    while i < overrides.len()
        invariant
            overrides@ == before,
            before == old(overrides)@,
            unique_modules(before),
            i <= overrides@.len(),
            forall|j: int| 0 <= j < i ==> overrides@[j].0@ != module@,
        decreases overrides@.len() - i,
    {
        if same_text(overrides[i].0.as_str(), module.as_str()) {
            let old_entry = overrides.set(i, (module, level));
            let ghost after = overrides@;
            proof {
                assert(after.len() == before.len());
                assert(after[i as int].0@ == before[i as int].0@);
                assert(forall|j: int| 0 <= j < after.len() && j != i ==> after[j] == before[j]);
                assert forall|a: int, b: int|
                    0 <= a < after.len() && 0 <= b < after.len() && a != b implies after[a].0@
                    != after[b].0@ by {
                    assert(after[a].0@ == before[a].0@);
                    assert(after[b].0@ == before[b].0@);
                }
                lemma_entry_at(after, i as int);
                assert forall|m: Seq<char>| m != module@ implies #[trigger] override_entry(after, m)
                    == override_entry(before, m) by {
                    lemma_same_entries_but_one(before, after, i as int, m);
                }
            }
            return;
        }
        i = i + 1;
    }
    overrides.push((module, level));
    proof {
        let after = overrides@;
        assert(after.drop_last() =~= before);
    }
}

proof fn lemma_same_entries_but_one(
    a: Seq<(String, LevelFilter)>,
    b: Seq<(String, LevelFilter)>,
    k: int,
    m: Seq<char>,
)
    requires
        a.len() == b.len(),
        0 <= k < a.len(),
        a[k].0@ == b[k].0@,
        m != a[k].0@,
        forall|j: int| 0 <= j < a.len() && j != k ==> a[j] == b[j],
    ensures
        override_entry(a, m) == override_entry(b, m),
    decreases a.len(),
{
    if k < a.len() - 1 {
        lemma_same_entries_but_one(a.drop_last(), b.drop_last(), k, m);
    } else {
        assert(a.drop_last() =~= b.drop_last());
    }
}

/// The overrides with one entry per module, the later of two entries for a
/// module winning.
pub fn merged_overrides(overrides: &Vec<(String, LevelFilter)>) -> (r: Vec<(String, LevelFilter)>)
    ensures
        unique_modules(r@),
        same_overrides(r@, overrides@),
{
    let mut r: Vec<(String, LevelFilter)> = Vec::new();
    let mut i: usize = 0;
    while i < overrides.len()
        invariant
            i <= overrides@.len(),
            unique_modules(r@),
            same_overrides(r@, overrides@.subrange(0, i as int)),
        decreases overrides@.len() - i,
    {
        let module = overrides[i].0.clone();
        set_override(&mut r, module, overrides[i].1);
        proof {
            let s = overrides@.subrange(0, i + 1);
            assert(s.drop_last() =~= overrides@.subrange(0, i as int));
        }
        i = i + 1;
    }
    assert(overrides@.subrange(0, i as int) =~= overrides@);
    r
}

/// The filter in force: the effective minimum level and one override per module.
#[derive(Debug)]
pub struct Filter {
    pub min_level: LevelFilter,
    pub module_levels: Vec<(String, LevelFilter)>,
}

impl Filter {
    /// Each module has at most one override.
    pub open spec fn wf(&self) -> bool {
        unique_modules(self.module_levels@)
    }

    /// Whether a record at `level` from `module` is emitted.
    pub open spec fn accepts(&self, level: LevelFilter, module: Seq<char>) -> bool {
        level != LevelFilter::Off && rank(level) <= rank(
            threshold_spec(self.module_levels@, module, self.min_level),
        )
    }

    /// A record is held to the override that governs its module, whatever
    /// the global minimum: the module's own override where it has one, else
    /// that of its nearest enclosing module. A record that no override
    /// governs is held to the global minimum.
    pub proof fn lemma_override_precedence(&self, level: LevelFilter, module: Seq<char>)
        ensures
            forall|l: LevelFilter|
                override_entry(self.module_levels@, module) == Some(l) ==> (self.accepts(
                    level,
                    module,
                ) <==> level != LevelFilter::Off && rank(level) <= rank(l)),
            governing(self.module_levels@, module) matches Some(e) ==> (self.accepts(level, module)
                <==> level != LevelFilter::Off && rank(level) <= rank(e.1)),
            governing(self.module_levels@, module) is None ==> (self.accepts(level, module)
                <==> level != LevelFilter::Off && rank(level) <= rank(self.min_level)),
    {
        if override_entry(self.module_levels@, module) is Some {
            lemma_own_override_governs(self.module_levels@, module);
        }
    }

    /// Whether a record at `level` from `module` is emitted.
    pub fn is_enabled(&self, level: LevelFilter, module: &str) -> (r: bool)
        ensures
            r == self.accepts(level, module@),
    {
        passes(level, threshold(&self.module_levels, module, self.min_level))
    }
}

} // verus!
