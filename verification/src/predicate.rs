//! The predicate evaluator: two independent predicate groups — name
//! patterns and entry kinds — each OR'd inside the group, the groups
//! AND'd together, and an empty group placing no constraint.

use vstd::prelude::*;

use crate::entry::{Entry, EntryKind};
use crate::pattern::{pattern_compile, pattern_is_match, regex_match, regex_ok, Pattern};
use crate::pattern::PatternError;

verus! {

/// Whether a name satisfies a group of pattern texts: the group is empty
/// (no constraint), or at least one pattern matches the name.
pub open spec fn name_matches(patterns: Seq<Seq<char>>, name: Seq<char>) -> bool {
    patterns.len() == 0 || exists|i: int|
        0 <= i < patterns.len() && regex_match(#[trigger] patterns[i], name)
}

/// Whether a kind satisfies a group of wanted kinds: the group is empty
/// (no constraint), or the kind is a member.
pub open spec fn kind_matches(kinds: Seq<EntryKind>, kind: EntryKind) -> bool {
    kinds.len() == 0 || kinds.contains(kind)
}

/// Whether an entry with this name and kind is selected: both groups
/// must accept it.
pub open spec fn entry_matches(
    name: Seq<char>,
    kind: EntryKind,
    patterns: Seq<Seq<char>>,
    kinds: Seq<EntryKind>,
) -> bool {
    name_matches(patterns, name) && kind_matches(kinds, kind)
}

/// The name predicate group: pattern matchers tested independently
/// against an entry's name, never its full path. Its view is the
/// sequence of pattern texts.
pub struct NamePredicateSet {
    pub(crate) patterns: Vec<Pattern>,
}

impl View for NamePredicateSet {
    type V = Seq<Seq<char>>;

    closed spec fn view(&self) -> Seq<Seq<char>> {
        self.patterns@.map_values(|p: Pattern| p@)
    }
}

impl NamePredicateSet {
    /// Whether the name satisfies this group. An empty group matches
    /// every name by an explicit branch, not as the fold over nothing.
    pub fn matches_name(&self, name: &String) -> (r: bool)
        ensures
            r == name_matches(self@, name@),
    {
        if self.patterns.len() == 0 {
            return true;
        }
        let n = self.patterns.len();
        let mut found = false;
        let mut i: usize = 0;
        while i < n
            invariant
                n == self.patterns@.len(),
                i <= n,
                found == exists|j: int|
                    0 <= j < i && regex_match(#[trigger] self.patterns@[j]@, name@),
            decreases n - i,
        {
            if pattern_is_match(&self.patterns[i], name.as_str()) {
                found = true;
                proof {
                    assert(regex_match(self.patterns@[i as int]@, name@));
                }
            }
            i = i + 1;
        }
        proof {
            assert(self@.len() == self.patterns@.len());
            if found {
                let j = choose|j: int|
                    0 <= j < n && regex_match(#[trigger] self.patterns@[j]@, name@);
                assert(self@[j] == self.patterns@[j]@);
                assert(regex_match(self@[j], name@));
            } else {
                assert forall|j: int| 0 <= j < self@.len() implies !regex_match(
                    #[trigger] self@[j],
                    name@,
                ) by {
                    assert(self@[j] == self.patterns@[j]@);
                }
            }
        }
        found
    }
}

/// The kind predicate group: the entry kinds the caller wants included.
/// Its view is the sequence of kinds.
pub struct KindPredicateSet {
    pub(crate) kinds: Vec<EntryKind>,
}

impl View for KindPredicateSet {
    type V = Seq<EntryKind>;

    closed spec fn view(&self) -> Seq<EntryKind> {
        self.kinds@
    }
}

impl KindPredicateSet {
    /// Whether the kind satisfies this group. An empty group matches
    /// every kind by an explicit branch.
    pub fn matches_kind(&self, kind: EntryKind) -> (r: bool)
        ensures
            r == kind_matches(self@, kind),
    {
        if self.kinds.len() == 0 {
            return true;
        }
        let n = self.kinds.len();
        let mut found = false;
        let mut i: usize = 0;
        while i < n
            invariant
                n == self.kinds@.len(),
                i <= n,
                found == exists|j: int| 0 <= j < i && #[trigger] self.kinds@[j] == kind,
            decreases n - i,
        {
            if self.kinds[i] == kind {
                found = true;
            }
            i = i + 1;
        }
        found
    }
}

/// The single-character kind codes the configuration accepts.
pub open spec fn is_kind_code(c: char) -> bool {
    c == 'd' || c == 'f' || c == 'l'
}

/// The kind a valid code stands for: `d` a directory, `f` a regular
/// file, `l` anything else (symbolic links included).
pub open spec fn kind_of_code(c: char) -> EntryKind {
    if c == 'd' {
        EntryKind::Directory
    } else if c == 'f' {
        EntryKind::File
    } else {
        EntryKind::Other
    }
}

/// Parse one kind code; any character outside the three codes is
/// rejected.
pub fn kind_from_code(c: char) -> (r: Option<EntryKind>)
    ensures
        r == if is_kind_code(c) {
            Some(kind_of_code(c))
        } else {
            None::<EntryKind>
        },
{
    if c == 'd' {
        Some(EntryKind::Directory)
    } else if c == 'f' {
        Some(EntryKind::File)
    } else if c == 'l' {
        Some(EntryKind::Other)
    } else {
        None
    }
}

/// Build the two predicate groups from configuration. Every pattern text
/// is compiled up front: the first malformed one fails the whole
/// construction with a `PatternError` naming it, before any traversal
/// could begin. Kind codes come from the external parser, which admits
/// only the three valid codes.
pub fn build_predicates(names: &Vec<String>, kinds: &Vec<char>) -> (r: Result<
    (NamePredicateSet, KindPredicateSet),
    PatternError,
>)
    requires
        forall|i: int| 0 <= i < kinds@.len() ==> is_kind_code(#[trigger] kinds@[i]),
    ensures
        r is Ok <==> (forall|i: int| 0 <= i < names@.len() ==> regex_ok(#[trigger] names@[i]@)),
        r matches Ok(sets) ==> sets.0@ == names@.map_values(|s: String| s@)
            && sets.1@ == kinds@.map_values(|c: char| kind_of_code(c)),
        r matches Err(e) ==> exists|i: int|
            0 <= i < names@.len() && !regex_ok(#[trigger] names@[i]@) && e.pattern@ == names@[i]@
                && (forall|j: int| 0 <= j < i ==> regex_ok(#[trigger] names@[j]@)),
{
    let mut patterns: Vec<Pattern> = Vec::new();
    let mut i: usize = 0;
    while i < names.len()
        invariant
            i <= names@.len(),
            patterns@.len() == i,
            forall|j: int| 0 <= j < i ==> regex_ok(#[trigger] names@[j]@),
            forall|j: int| 0 <= j < i ==> #[trigger] patterns@[j]@ == names@[j]@,
        decreases names@.len() - i,
    {
        match pattern_compile(names[i].as_str()) {
            Some(p) => {
                patterns.push(p);
            },
            None => {
                return Err(PatternError { pattern: names[i].clone() });
            },
        }
        i = i + 1;
    }
    let mut resolved: Vec<EntryKind> = Vec::new();
    let mut k: usize = 0;
    while k < kinds.len()
        invariant
            k <= kinds@.len(),
            resolved@.len() == k,
            forall|j: int| 0 <= j < kinds@.len() ==> is_kind_code(#[trigger] kinds@[j]),
            forall|j: int| 0 <= j < k ==> #[trigger] resolved@[j] == kind_of_code(kinds@[j]),
        decreases kinds@.len() - k,
    {
        match kind_from_code(kinds[k]) {
            Some(kd) => {
                resolved.push(kd);
            },
            None => {
                proof {
                    assert(false);
                }
            },
        }
        k = k + 1;
    }
    let name_set = NamePredicateSet { patterns };
    let kind_set = KindPredicateSet { kinds: resolved };
    proof {
        assert(name_set@ =~= names@.map_values(|s: String| s@));
        assert(kind_set@ =~= kinds@.map_values(|c: char| kind_of_code(c)));
    }
    Ok((name_set, kind_set))
}

/// The evaluator: an entry passes exactly when its name satisfies the
/// name group and its resolved kind satisfies the kind group. Evaluation
/// is pure and never fails.
pub fn matches(entry: &Entry, names: &NamePredicateSet, kinds: &KindPredicateSet) -> (r: bool)
    ensures
        r == entry_matches(entry.name@, entry.kind, names@, kinds@),
{
    let name_ok = names.matches_name(&entry.name);
    let kind_ok = kinds.matches_kind(entry.kind);
    name_ok && kind_ok
}

/// With both predicate groups empty, every entry matches.
pub proof fn lemma_empty_groups_match_all(name: Seq<char>, kind: EntryKind)
    ensures
        entry_matches(name, kind, Seq::<Seq<char>>::empty(), Seq::<EntryKind>::empty()),
{
}

/// OR semantics of the name group: one pattern that matches the name
/// suffices, whatever the other patterns do; the whole evaluation then
/// turns on the kind group alone.
pub proof fn lemma_one_pattern_suffices(
    name: Seq<char>,
    kind: EntryKind,
    patterns: Seq<Seq<char>>,
    kinds: Seq<EntryKind>,
    i: int,
)
    requires
        0 <= i < patterns.len(),
        regex_match(patterns[i], name),
    ensures
        name_matches(patterns, name),
        entry_matches(name, kind, patterns, kinds) == kind_matches(kinds, kind),
        kinds.len() == 0 ==> entry_matches(name, kind, patterns, kinds),
{
}

/// AND semantics of the groups: a kind group of `File` alone rejects a
/// directory entry, whatever the name group says.
pub proof fn lemma_kind_group_excludes(name: Seq<char>, patterns: Seq<Seq<char>>)
    ensures
        !entry_matches(name, EntryKind::Directory, patterns, seq![EntryKind::File]),
{
    let kinds = seq![EntryKind::File];
    assert(kinds[0] == EntryKind::File);
    assert(!kinds.contains(EntryKind::Directory));
}

} // verus!
