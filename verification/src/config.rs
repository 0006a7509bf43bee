//! The configuration of the application: the window size, the settings of each
//! profile, the table of named profiles, and how the active profile is chosen.
use vstd::prelude::*;

use crate::timer::{Profile, ProfileKind};

verus! {

/// The configured size of the window.
#[derive(Clone, Debug, PartialEq, Eq, Structural)]
pub enum WindowSize {
    S,
    M,
    L,
}

impl Default for WindowSize {
    /// The medium size.
    fn default() -> (r: Self)
        ensures
            r == WindowSize::M,
    {
        WindowSize::M
    }
}

/// The settings of one profile: durations in seconds, the optional long break
/// and its spacing, and the colour of each phase.
#[derive(Clone, Debug)]
pub struct ProfileConfig {
    pub work_duration_secs: u32,
    pub short_break_secs: u32,
    pub long_break_secs: Option<u32>,
    pub cycles_before_long_break: Option<u32>,
    pub work_color: String,
    pub short_break_color: String,
    pub long_break_color: String,
}

/// Twenty-five minutes of work.
pub fn default_work_duration_secs() -> (r: u32)
    ensures
        r == 1500,
{
    1500
}

/// Five minutes of short break.
pub fn default_short_break_secs() -> (r: u32)
    ensures
        r == 300,
{
    300
}

/// Fifteen minutes of long break.
pub fn default_long_break_secs() -> (r: Option<u32>)
    ensures
        r == Some(900u32),
{
    Some(900)
}

/// A long break after every fourth work phase.
pub fn default_cycles_before_long_break() -> (r: Option<u32>)
    ensures
        r == Some(4u32),
{
    Some(4)
}

/// A soft red for work.
pub fn default_work_color() -> (r: String)
    ensures
        r@ == "#E05C5C"@,
{
    "#E05C5C".to_string()
}

/// A soft green for short breaks.
pub fn default_short_break_color() -> (r: String)
    ensures
        r@ == "#5CB85C"@,
{
    "#5CB85C".to_string()
}

/// A soft blue for long breaks.
pub fn default_long_break_color() -> (r: String)
    ensures
        r@ == "#5C9BE0"@,
{
    "#5C9BE0".to_string()
}

/// Sound is on unless switched off.
pub fn default_sound_enabled() -> (r: bool)
    ensures
        r,
{
    true
}

/// The window stays above the others unless told otherwise.
pub fn default_always_on_top() -> (r: bool)
    ensures
        r,
{
    true
}

/// The classic profile is the active one unless another is chosen.
pub fn default_active_profile_name() -> (r: String)
    ensures
        r@ == "classic"@,
{
    "classic".to_string()
}

/// The colours that the default settings give the three phases.
pub open spec fn has_default_colors(c: ProfileConfig) -> bool {
    &&& c.work_color@ == "#E05C5C"@
    &&& c.short_break_color@ == "#5CB85C"@
    &&& c.long_break_color@ == "#5C9BE0"@
}

/// The default settings: 25 minutes of work, 5 of short break, 15 of long
/// break after every fourth work phase, and the default colours.
pub open spec fn is_default_config(c: ProfileConfig) -> bool {
    &&& c.work_duration_secs == 1500
    &&& c.short_break_secs == 300
    &&& c.long_break_secs == Some(900u32)
    &&& c.cycles_before_long_break == Some(4u32)
    &&& has_default_colors(c)
}

/// The default settings without a long break.
pub open spec fn is_default_no_long_break_config(c: ProfileConfig) -> bool {
    &&& c.work_duration_secs == 1500
    &&& c.short_break_secs == 300
    &&& c.long_break_secs is None
    &&& c.cycles_before_long_break is None
    &&& has_default_colors(c)
}

impl Default for ProfileConfig {
    /// The default settings of a profile.
    fn default() -> (r: Self)
        ensures
            is_default_config(r),
    {
        Self {
            work_duration_secs: default_work_duration_secs(),
            short_break_secs: default_short_break_secs(),
            long_break_secs: default_long_break_secs(),
            cycles_before_long_break: default_cycles_before_long_break(),
            work_color: default_work_color(),
            short_break_color: default_short_break_color(),
            long_break_color: default_long_break_color(),
        }
    }
}


/// Whether no two entries carry the same name.
pub open spec fn names_distinct(entries: Seq<(String, ProfileConfig)>) -> bool {
    forall|i: int, j: int|
        0 <= i < j < entries.len() ==> #[trigger] entries[i].0@ != #[trigger] entries[j].0@
}

/// The map from names to settings that a list of entries describes.
pub open spec fn table_map(entries: Seq<(String, ProfileConfig)>) -> Map<Seq<char>, ProfileConfig>
    decreases entries.len(),
{
    if entries.len() == 0 {
        Map::empty()
    } else {
        table_map(entries.drop_last()).insert(entries.last().0@, entries.last().1)
    }
}

/// With distinct names, a name is in the map exactly when an entry carries
/// it, and the map gives that entry's settings.
pub proof fn lemma_table_map(entries: Seq<(String, ProfileConfig)>)
    requires
        names_distinct(entries),
    ensures
        forall|k: Seq<char>|
            #[trigger] table_map(entries).contains_key(k) <==> exists|i: int|
                0 <= i < entries.len() && #[trigger] entries[i].0@ == k,
        forall|i: int|
            0 <= i < entries.len() ==> table_map(entries)[#[trigger] entries[i].0@]
                == entries[i].1,
    decreases entries.len(),
{
    if entries.len() > 0 {
        let rest = entries.drop_last();
        assert(names_distinct(rest)) by {
            assert forall|i: int, j: int| 0 <= i < j < rest.len() implies #[trigger] rest[i].0@
                != #[trigger] rest[j].0@ by {
                assert(rest[i] == entries[i] && rest[j] == entries[j]);
            }
        }
        lemma_table_map(rest);
        let last = entries.len() - 1;
        assert forall|k: Seq<char>|
            #[trigger] table_map(entries).contains_key(k) <==> exists|i: int|
                0 <= i < entries.len() && #[trigger] entries[i].0@ == k by {
            if table_map(entries).contains_key(k) {
                if k == entries[last].0@ {
                } else {
                    assert(table_map(rest).contains_key(k));
                    let i = choose|i: int| 0 <= i < rest.len() && #[trigger] rest[i].0@ == k;
                    assert(entries[i] == rest[i]);
                }
            }
            if exists|i: int| 0 <= i < entries.len() && #[trigger] entries[i].0@ == k {
                let i = choose|i: int| 0 <= i < entries.len() && #[trigger] entries[i].0@ == k;
                if i < last {
                    assert(entries[i] == rest[i]);
                    assert(table_map(rest).contains_key(rest[i].0@));
                }
            }
        }
        assert forall|i: int| 0 <= i < entries.len() implies table_map(entries)[
            #[trigger] entries[i].0@] == entries[i].1 by {
            if i < last {
                assert(entries[i] == rest[i]);
                assert(entries[i].0@ != entries[last].0@);
                assert(table_map(rest)[rest[i].0@] == rest[i].1);
            }
        }
    }
}

/// Adding an entry under a new name adds that name to the map.
proof fn lemma_table_push(entries: Seq<(String, ProfileConfig)>, entry: (String, ProfileConfig))
    requires
        names_distinct(entries),
        forall|j: int| 0 <= j < entries.len() ==> #[trigger] entries[j].0@ != entry.0@,
    ensures
        names_distinct(entries.push(entry)),
        table_map(entries.push(entry)) == table_map(entries).insert(entry.0@, entry.1),
{
    let e = entries.push(entry);
    assert(e.drop_last() =~= entries);
    assert forall|i: int, j: int| 0 <= i < j < e.len() implies #[trigger] e[i].0@
        != #[trigger] e[j].0@ by {
        if j == entries.len() {
            assert(e[i] == entries[i]);
        } else {
            assert(e[i] == entries[i] && e[j] == entries[j]);
        }
    }
}

/// Replacing the entry of a name already present replaces that name's
/// settings in the map.
proof fn lemma_table_replace(
    entries: Seq<(String, ProfileConfig)>,
    i: int,
    entry: (String, ProfileConfig),
)
    requires
        names_distinct(entries),
        0 <= i < entries.len(),
        entries[i].0@ == entry.0@,
    ensures
        names_distinct(entries.update(i, entry)),
        table_map(entries.update(i, entry)) == table_map(entries).insert(entry.0@, entry.1),
{
    let e = entries.update(i, entry);
    assert forall|a: int, b: int| 0 <= a < b < e.len() implies #[trigger] e[a].0@
        != #[trigger] e[b].0@ by {
        assert(e[a].0@ == entries[a].0@ && e[b].0@ == entries[b].0@);
    }
    lemma_table_map(entries);
    lemma_table_map(e);
    let m = table_map(entries).insert(entry.0@, entry.1);
    assert forall|k: Seq<char>| #[trigger] table_map(e).contains_key(k) <==> m.contains_key(k) by {
        if table_map(e).contains_key(k) {
            let j = choose|j: int| 0 <= j < e.len() && #[trigger] e[j].0@ == k;
            if j != i {
                assert(entries[j].0@ == k);
            }
        }
        if k == entry.0@ {
            assert(e[i].0@ == k);
        }
        if m.contains_key(k) && k != entry.0@ {
            let j = choose|j: int| 0 <= j < entries.len() && #[trigger] entries[j].0@ == k;
            assert(e[j].0@ == k);
        }
    }
    assert forall|k: Seq<char>| #[trigger] table_map(e).contains_key(k) implies table_map(e)[k]
        == m[k] by {
        let j = choose|j: int| 0 <= j < e.len() && #[trigger] e[j].0@ == k;
        if j != i {
            assert(e[j] == entries[j]);
        }
    }
    assert(table_map(e) =~= m);
}

/// The named profiles: settings looked up by the profile's name, each name at
/// most once.
pub struct ProfileTable {
    entries: Vec<(String, ProfileConfig)>,
}

impl View for ProfileTable {
    type V = Map<Seq<char>, ProfileConfig>;

    closed spec fn view(&self) -> Map<Seq<char>, ProfileConfig> {
        table_map(self.entries@)
    }
}

impl ProfileTable {
    #[verifier::type_invariant]
    spec fn distinct(self) -> bool {
        names_distinct(self.entries@)
    }

    /// A table with no profile.
    pub fn new() -> (t: Self)
        ensures
            t@ == Map::<Seq<char>, ProfileConfig>::empty(),
    {
        ProfileTable { entries: Vec::new() }
    }

    /// Stores `config` under `name`, replacing the settings that the name had.
    pub fn insert(&mut self, name: String, config: ProfileConfig)
        ensures
            final(self)@ == old(self)@.insert(name@, config),
    {
        proof {
            use_type_invariant(&*self);
        }
        let mut entries: Vec<(String, ProfileConfig)> = Vec::new();
        std::mem::swap(&mut entries, &mut self.entries);
        let ghost before = entries@;
        let mut i: usize = 0;
        while i < entries.len()
            invariant
                entries@ == before,
                before == old(self).entries@,
                names_distinct(before),
                i <= entries.len(),
                forall|j: int| 0 <= j < i ==> #[trigger] entries@[j].0@ != name@,
            decreases entries.len() - i,
        {
            if entries[i].0 == name {
                proof {
                    lemma_table_replace(before, i as int, (name, config));
                }
                entries.set(i, (name, config));
                self.entries = entries;
                return;
            }
            i += 1;
        }
        proof {
            lemma_table_push(before, (name, config));
        }
        entries.push((name, config));
        self.entries = entries;
    }

    /// The settings stored under `name`, if any.
    pub fn get(&self, name: &str) -> (r: Option<&ProfileConfig>)
        ensures
            r is Some <==> self@.contains_key(name@),
            r matches Some(c) ==> *c == self@[name@],
    {
        proof {
            use_type_invariant(self);
        }
        let key = name.to_owned();
        let mut i: usize = 0;
        while i < self.entries.len()
            invariant
                i <= self.entries.len(),
                key@ == name@,
                names_distinct(self.entries@),
                forall|j: int| 0 <= j < i ==> #[trigger] self.entries@[j].0@ != name@,
            decreases self.entries.len() - i,
        {
            if self.entries[i].0 == key {
                proof {
                    lemma_table_map(self.entries@);
                    assert(self.entries@[i as int].0@ == name@);
                }
                return Some(&self.entries[i].1);
            }
            i += 1;
        }
        proof {
            lemma_table_map(self.entries@);
        }
        None
    }

    /// Whether a profile is stored under `name`.
    pub fn contains_key(&self, name: &str) -> (r: bool)
        ensures
            r == self@.contains_key(name@),
    {
        self.get(name).is_some()
    }

    /// The entries of the table, each name once.
    pub fn into_entries(self) -> (r: Vec<(String, ProfileConfig)>)
        ensures
            names_distinct(r@),
            table_map(r@) == self@,
    {
        proof {
            use_type_invariant(&self);
        }
        self.entries
    }
}

/// The two profiles shipped by default: "classic", with the default settings,
/// and "no_long_break", the same without a long break.
pub fn default_profiles() -> (r: ProfileTable)
    ensures
        r@.dom() =~= set!["classic"@, "no_long_break"@],
        is_default_config(r@["classic"@]),
        is_default_no_long_break_config(r@["no_long_break"@]),
{
    let mut profiles = ProfileTable::new();
    let classic = ProfileConfig::default();
    let ghost classic_config = classic;
    profiles.insert("classic".to_string(), classic);

    let mut no_long_break = ProfileConfig::default();
    no_long_break.long_break_secs = None;
    no_long_break.cycles_before_long_break = None;
    profiles.insert("no_long_break".to_string(), no_long_break);
    proof {
        reveal_strlit("classic");
        reveal_strlit("no_long_break");
        assert("classic"@.len() != "no_long_break"@.len());
        assert(profiles@["classic"@] == classic_config);
    }
    profiles
}

/// The profile that a name and its settings give: classic exactly when the
/// name is "classic"; a missing long break lasts zero seconds, and a missing
/// spacing of long breaks counts as four.
pub open spec fn profile_from_values(
    name: Seq<char>,
    work: u32,
    short: u32,
    long: Option<u32>,
    cycles: Option<u32>,
) -> Profile {
    Profile {
        kind: if name == "classic"@ {
            ProfileKind::Classic
        } else {
            ProfileKind::NoLongBreak
        },
        work_secs: work as u64,
        short_break_secs: short as u64,
        long_break_secs: match long {
            Some(secs) => secs as u64,
            None => 0,
        },
        cycles_before_long: match cycles {
            Some(n) => n,
            None => 4,
        },
    }
}

/// The profile that a name and a profile's settings give.
pub open spec fn profile_from_config(name: Seq<char>, c: ProfileConfig) -> Profile {
    profile_from_values(
        name,
        c.work_duration_secs,
        c.short_break_secs,
        c.long_break_secs,
        c.cycles_before_long_break,
    )
}

/// The profile to run when `active_name` is the configured profile: its own
/// settings when the table has them, else those of "classic", else the
/// default settings.
pub fn active_profile(profiles: &ProfileTable, active_name: &str) -> (p: Profile)
    ensures
        profiles@.contains_key(active_name@) ==> p == profile_from_config(
            active_name@,
            profiles@[active_name@],
        ),
        !profiles@.contains_key(active_name@) && profiles@.contains_key("classic"@) ==> p
            == profile_from_config(active_name@, profiles@["classic"@]),
        !profiles@.contains_key(active_name@) && !profiles@.contains_key("classic"@) ==> p
            == profile_from_values(active_name@, 1500, 300, Some(900u32), Some(4u32)),
{
    let fallback = ProfileConfig::default();
    let config: &ProfileConfig = match profiles.get(active_name) {
        Some(c) => c,
        None => match profiles.get("classic") {
            Some(c) => c,
            None => &fallback,
        },
    };
    let classic = "classic".to_owned();
    let kind = if active_name.to_owned() == classic {
        ProfileKind::Classic
    } else {
        ProfileKind::NoLongBreak
    };
    Profile {
        kind,
        work_secs: config.work_duration_secs as u64,
        short_break_secs: config.short_break_secs as u64,
        long_break_secs: match config.long_break_secs {
            Some(secs) => secs as u64,
            None => 0,
        },
        cycles_before_long: match config.cycles_before_long_break {
            Some(n) => n,
            None => 4,
        },
    }
}

} // verus!
