//! Severity levels and the mapping from level names to levels.

use vstd::prelude::*;

verus! {

/// Severity of a record, least severe first. The derived order follows the
/// order of the variants, so `Trace < Debug < Info < Warn < Error`.
#[derive(Clone, Copy, Debug, PartialEq, Eq, Structural, PartialOrd, Ord, Hash)]
pub enum SeverityLevel {
    Trace,
    Debug,
    Info,
    Warn,
    Error,
}

/// The ASCII lower-case form of a character; characters outside `A..=Z` are
/// left as they are.
pub open spec fn ascii_lower(c: char) -> char {
    if 'A' <= c && c <= 'Z' {
        ((c as u32) + 32) as char
    } else {
        c
    }
}

/// Two texts are equal when ASCII letters are compared without regard to case.
pub open spec fn eq_ignore_case(a: Seq<char>, b: Seq<char>) -> bool {
    &&& a.len() == b.len()
    &&& forall|i: int| 0 <= i < a.len() ==> ascii_lower(#[trigger] a[i]) == ascii_lower(b[i])
}

impl SeverityLevel {
    /// Position of the level in the order of severity, `Trace` being 0.
    pub open spec fn rank_spec(self) -> nat {
        match self {
            SeverityLevel::Trace => 0,
            SeverityLevel::Debug => 1,
            SeverityLevel::Info => 2,
            SeverityLevel::Warn => 3,
            SeverityLevel::Error => 4,
        }
    }

    /// The lower-case name of the level.
    pub open spec fn name_spec(self) -> Seq<char> {
        match self {
            SeverityLevel::Trace => "trace"@,
            SeverityLevel::Debug => "debug"@,
            SeverityLevel::Info => "info"@,
            SeverityLevel::Warn => "warn"@,
            SeverityLevel::Error => "error"@,
        }
    }

    /// Position of the level in the order of severity, `Trace` being 0.
    pub fn rank(self) -> (r: u8)
        ensures
            r == self.rank_spec(),
    {
        match self {
            SeverityLevel::Trace => 0,
            SeverityLevel::Debug => 1,
            SeverityLevel::Info => 2,
            SeverityLevel::Warn => 3,
            SeverityLevel::Error => 4,
        }
    }

    /// The lower-case name of the level.
    pub fn name(self) -> (s: &'static str)
        ensures
            s@ == self.name_spec(),
    {
        match self {
            SeverityLevel::Trace => "trace",
            SeverityLevel::Debug => "debug",
            SeverityLevel::Info => "info",
            SeverityLevel::Warn => "warn",
            SeverityLevel::Error => "error",
        }
    }
}

/// The levels are totally ordered by rank, `Trace` lowest and `Error`
/// highest, and no two levels share a rank.
pub proof fn lemma_levels_are_ordered(a: SeverityLevel, b: SeverityLevel)
    ensures
        a.rank_spec() == b.rank_spec() <==> a == b,
        SeverityLevel::Trace.rank_spec() < SeverityLevel::Debug.rank_spec()
            < SeverityLevel::Info.rank_spec() < SeverityLevel::Warn.rank_spec()
            < SeverityLevel::Error.rank_spec(),
{
}

/// The level that a name stands for: the level whose name equals it without
/// regard to ASCII case, and `Info` where there is none.
pub open spec fn level_of(name: Seq<char>) -> SeverityLevel {
    if eq_ignore_case(name, SeverityLevel::Error.name_spec()) {
        SeverityLevel::Error
    } else if eq_ignore_case(name, SeverityLevel::Warn.name_spec()) {
        SeverityLevel::Warn
    } else if eq_ignore_case(name, SeverityLevel::Debug.name_spec()) {
        SeverityLevel::Debug
    } else if eq_ignore_case(name, SeverityLevel::Trace.name_spec()) {
        SeverityLevel::Trace
    } else {
        SeverityLevel::Info
    }
}

/// The code point of the ASCII lower-case form of `c`.
fn lower_code(c: char) -> (code: u32)
    ensures
        code == ascii_lower(c) as u32,
{
    if 'A' <= c && c <= 'Z' {
        (c as u32) + 32
    } else {
        c as u32
    }
}

/// Whether `text` equals `word` without regard to ASCII case.
fn same_ignoring_case(text: &str, word: &str) -> (same: bool)
    ensures
        same == eq_ignore_case(text@, word@),
{
    let n: usize = text.unicode_len();
    if n != word.unicode_len() {
        return false;
    }
    let mut i: usize = 0;
    while i < n
        invariant
            i <= n,
            n == text@.len(),
            n == word@.len(),
            forall|j: int| 0 <= j < i ==> ascii_lower(#[trigger] text@[j]) == ascii_lower(word@[j]),
        decreases n - i,
    {
        if lower_code(text.get_char(i)) != lower_code(word.get_char(i)) {
            return false;
        }
        i = i + 1;
    }
    true
}

/// Maps a level name to its level, without regard to ASCII case. Every text
/// that names no level, the empty one included, gives `Info`.
pub fn level_from_name(name: &str) -> (level: SeverityLevel)
    ensures
        level == level_of(name@),
{
    if same_ignoring_case(name, SeverityLevel::Error.name()) {
        SeverityLevel::Error
    } else if same_ignoring_case(name, SeverityLevel::Warn.name()) {
        SeverityLevel::Warn
    } else if same_ignoring_case(name, SeverityLevel::Debug.name()) {
        SeverityLevel::Debug
    } else if same_ignoring_case(name, SeverityLevel::Trace.name()) {
        SeverityLevel::Trace
    } else {
        SeverityLevel::Info
    }
}

/// The level that an optional name stands for: `Info` where the name is
/// absent, and the level of the name otherwise.
pub open spec fn level_or_info(name: Option<Seq<char>>) -> SeverityLevel {
    match name {
        Some(name) => level_of(name),
        None => SeverityLevel::Info,
    }
}

/// Maps an optional level name to its level; an absent name gives `Info`.
pub fn level_or_default(name: Option<&str>) -> (level: SeverityLevel)
    ensures
        level == level_or_info(
            match name {
                Some(name) => Some(name@),
                None => None,
            },
        ),
{
    match name {
        Some(name) => level_from_name(name),
        None => SeverityLevel::Info,
    }
}

/// The names of two different levels differ in their first letter or in
/// their length, so no text equals both without regard to case.
proof fn lemma_names_differ(name: Seq<char>, a: SeverityLevel, b: SeverityLevel)
    requires
        eq_ignore_case(name, a.name_spec()),
        eq_ignore_case(name, b.name_spec()),
    ensures
        a == b,
{
    reveal_strlit("trace");
    reveal_strlit("debug");
    reveal_strlit("info");
    reveal_strlit("warn");
    reveal_strlit("error");
    assert(ascii_lower(name[0]) == ascii_lower(a.name_spec()[0]));
    assert(ascii_lower(name[0]) == ascii_lower(b.name_spec()[0]));
}

/// The mapping of level names is total and exact: a text that equals the
/// name of a level without regard to ASCII case stands for that level, and
/// every other text stands for `Info`.
pub proof fn lemma_level_of_name(name: Seq<char>)
    ensures
        forall|level: SeverityLevel| #[trigger]
            eq_ignore_case(name, level.name_spec()) ==> level_of(name) == level,
        (forall|level: SeverityLevel| !#[trigger] eq_ignore_case(name, level.name_spec()))
            ==> level_of(name) == SeverityLevel::Info,
{
    assert forall|level: SeverityLevel| #[trigger]
        eq_ignore_case(name, level.name_spec()) implies level_of(name) == level by {
        lemma_names_differ(name, level, level_of(name));
    }
}

/// The name of a level stands for that level, in any mix of upper and lower
/// case.
pub proof fn lemma_name_round_trip(level: SeverityLevel, name: Seq<char>)
    requires
        eq_ignore_case(name, level.name_spec()),
    ensures
        level_of(name) == level,
        level_of(level.name_spec()) == level,
{
    lemma_level_of_name(name);
    lemma_level_of_name(level.name_spec());
}

/// An absent level name asks for the same level as the name `info`.
pub proof fn lemma_absent_name_is_info()
    ensures
        level_or_info(None) == level_or_info(Some("info"@)),
        level_of("info"@) == SeverityLevel::Info,
{
    lemma_name_round_trip(SeverityLevel::Info, "info"@);
}

} // verus!
