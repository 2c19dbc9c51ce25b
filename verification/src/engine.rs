//! The orchestration: evaluate every step of a walk against the two
//! predicate groups, keep the selected paths in walk order, and forward
//! every failure without letting one stop the run.

use vstd::prelude::*;
use vstd::seq_lib::lemma_multiset_commutative;

use crate::entry::{Entry, EntryKind};
use crate::pattern::regex_match;
use crate::predicate::{entry_matches, kind_matches, name_matches, KindPredicateSet, NamePredicateSet};
use crate::walk::{walk, WalkItem};

verus! {

/// The paths one walk item contributes: the entry's path when the item
/// holds an entry that both predicate groups select, nothing otherwise.
pub open spec fn item_paths(
    item: WalkItem,
    patterns: Seq<Seq<char>>,
    kinds: Seq<EntryKind>,
) -> Seq<String> {
    match item {
        WalkItem::Found(e) => if entry_matches(e.name@, e.kind, patterns, kinds) {
            seq![e.path]
        } else {
            Seq::empty()
        },
        _ => Seq::empty(),
    }
}

/// The failure messages one walk item contributes: one message for a
/// failed root or a failed step, nothing for a found entry.
pub open spec fn item_reports(item: WalkItem) -> Seq<String> {
    match item {
        WalkItem::Found(_) => Seq::empty(),
        WalkItem::RootFailed(e) => seq![e.message],
        WalkItem::StepFailed(e) => seq![e.message],
    }
}

/// The paths of the entries a walk found that the predicate groups
/// select, in walk order.
pub open spec fn matched_paths(
    items: Seq<WalkItem>,
    patterns: Seq<Seq<char>>,
    kinds: Seq<EntryKind>,
) -> Seq<String>
    decreases items.len(),
{
    if items.len() == 0 {
        Seq::empty()
    } else {
        matched_paths(items.drop_last(), patterns, kinds) + item_paths(
            items.last(),
            patterns,
            kinds,
        )
    }
}

/// The failure messages of a walk, in walk order: every failure
/// surfaces, none is aggregated or dropped.
pub open spec fn failure_messages(items: Seq<WalkItem>) -> Seq<String>
    decreases items.len(),
{
    if items.len() == 0 {
        Seq::empty()
    } else {
        failure_messages(items.drop_last()) + item_reports(items.last())
    }
}

/// Evaluate every item of one walk: the selected paths and the failure
/// messages, each in walk order. A failure never stops the evaluation of
/// the remaining items and is never dropped.
pub fn filter_items(
    items: &Vec<WalkItem>,
    names: &NamePredicateSet,
    kinds: &KindPredicateSet,
) -> (r: (Vec<String>, Vec<String>))
    ensures
        r.0@ == matched_paths(items@, names@, kinds@),
        r.1@ == failure_messages(items@),
{
    let mut paths: Vec<String> = Vec::new();
    let mut reports: Vec<String> = Vec::new();
    let mut i: usize = 0;
    while i < items.len()
        invariant
            i <= items@.len(),
            paths@ == matched_paths(items@.take(i as int), names@, kinds@),
            reports@ == failure_messages(items@.take(i as int)),
        decreases items@.len() - i,
    {
        proof {
            assert(items@.take(i as int + 1).drop_last() =~= items@.take(i as int));
            assert(items@.take(i as int + 1).last() == items@[i as int]);
        }
        match &items[i] {
            WalkItem::Found(e) => {
                if crate::predicate::matches(e, names, kinds) {
                    paths.push(e.path.clone());
                }
            },
            WalkItem::RootFailed(f) => {
                reports.push(f.message.clone());
            },
            WalkItem::StepFailed(f) => {
                reports.push(f.message.clone());
            },
        }
        i = i + 1;
    }
    proof {
        assert(items@.take(items@.len() as int) =~= items@);
    }
    (paths, reports)
}

/// The selected paths of several walks, one walk per root, in root
/// order, each walk's own order kept.
pub open spec fn roots_matched(
    itemss: Seq<Seq<WalkItem>>,
    patterns: Seq<Seq<char>>,
    kinds: Seq<EntryKind>,
) -> Seq<String>
    decreases itemss.len(),
{
    if itemss.len() == 0 {
        Seq::empty()
    } else {
        roots_matched(itemss.drop_last(), patterns, kinds) + matched_paths(
            itemss.last(),
            patterns,
            kinds,
        )
    }
}

/// The failure messages of several walks, one walk per root, in root
/// order, each walk's own order kept.
pub open spec fn roots_failures(itemss: Seq<Seq<WalkItem>>) -> Seq<String>
    decreases itemss.len(),
{
    if itemss.len() == 0 {
        Seq::empty()
    } else {
        roots_failures(itemss.drop_last()) + failure_messages(itemss.last())
    }
}

/// Walk every root in order, each one fully before the next, and
/// evaluate every step. What each walk finds depends on the filesystem,
/// so the walks' item sequences come back as the ghost part of the
/// result: one sequence per root, and the selected paths and failure
/// messages are exactly the selection and the failures over those
/// sequences, per root in walk order, roots in the given order. A failed
/// root contributes one message while the run proceeds with the next
/// root.
pub fn run(roots: &Vec<String>, names: &NamePredicateSet, kinds: &KindPredicateSet) -> (r: (
    Vec<String>,
    Vec<String>,
    Ghost<Seq<Seq<WalkItem>>>,
))
    ensures
        r.2@.len() == roots@.len(),
        r.0@ == roots_matched(r.2@, names@, kinds@),
        r.1@ == roots_failures(r.2@),
{
    let mut all_paths: Vec<String> = Vec::new();
    let mut all_reports: Vec<String> = Vec::new();
    let ghost mut itemss: Seq<Seq<WalkItem>> = Seq::empty();
    let mut i: usize = 0;
    while i < roots.len()
        invariant
            i <= roots@.len(),
            itemss.len() == i,
            all_paths@ == roots_matched(itemss, names@, kinds@),
            all_reports@ == roots_failures(itemss),
        decreases roots@.len() - i,
    {
        let mut walker = walk(roots[i].as_str());
        let items = walker.collect_items();
        let (mut paths, mut reports) = filter_items(&items, names, kinds);
        all_paths.append(&mut paths);
        all_reports.append(&mut reports);
        proof {
            let prev = itemss;
            itemss = itemss.push(items@);
            assert(itemss.drop_last() =~= prev);
            assert(itemss.last() == items@);
        }
        i = i + 1;
    }
    (all_paths, all_reports, Ghost(itemss))
}

/// Selection distributes over concatenation: the paths selected from one
/// walk followed by another are the first walk's selection followed by
/// the second's.
pub proof fn lemma_matched_paths_concat(
    a: Seq<WalkItem>,
    b: Seq<WalkItem>,
    patterns: Seq<Seq<char>>,
    kinds: Seq<EntryKind>,
)
    ensures
        matched_paths(a + b, patterns, kinds) == matched_paths(a, patterns, kinds)
            + matched_paths(b, patterns, kinds),
    decreases b.len(),
{
    if b.len() == 0 {
        assert(a + b =~= a);
        assert(matched_paths(b, patterns, kinds) == Seq::<String>::empty());
        assert(matched_paths(a, patterns, kinds) + Seq::<String>::empty() =~= matched_paths(
            a,
            patterns,
            kinds,
        ));
    } else {
        lemma_matched_paths_concat(a, b.drop_last(), patterns, kinds);
        assert((a + b).drop_last() =~= a + b.drop_last());
        assert((a + b).last() == b.last());
        assert((matched_paths(a, patterns, kinds) + matched_paths(b.drop_last(), patterns, kinds))
            + item_paths(b.last(), patterns, kinds) =~= matched_paths(a, patterns, kinds) + (
        matched_paths(b.drop_last(), patterns, kinds) + item_paths(b.last(), patterns, kinds)));
    }
}

/// Root order is presentation only: walking two roots in either order
/// selects the same collection of paths — each root's own walk order
/// kept — while the emission order follows the root order. The law is
/// stated both of one concatenated walk and of the two-root selection
/// that `run` promises.
pub proof fn lemma_root_order(
    a: Seq<WalkItem>,
    b: Seq<WalkItem>,
    patterns: Seq<Seq<char>>,
    kinds: Seq<EntryKind>,
)
    ensures
        matched_paths(a + b, patterns, kinds) == matched_paths(a, patterns, kinds)
            + matched_paths(b, patterns, kinds),
        matched_paths(b + a, patterns, kinds) == matched_paths(b, patterns, kinds)
            + matched_paths(a, patterns, kinds),
        matched_paths(a + b, patterns, kinds).to_multiset() == matched_paths(
            b + a,
            patterns,
            kinds,
        ).to_multiset(),
        roots_matched(seq![a, b], patterns, kinds) == matched_paths(a, patterns, kinds)
            + matched_paths(b, patterns, kinds),
        roots_matched(seq![b, a], patterns, kinds) == matched_paths(b, patterns, kinds)
            + matched_paths(a, patterns, kinds),
        roots_matched(seq![a, b], patterns, kinds).to_multiset() == roots_matched(
            seq![b, a],
            patterns,
            kinds,
        ).to_multiset(),
{
    lemma_matched_paths_concat(a, b, patterns, kinds);
    lemma_matched_paths_concat(b, a, patterns, kinds);
    let pa = matched_paths(a, patterns, kinds);
    let pb = matched_paths(b, patterns, kinds);
    lemma_multiset_commutative(pa, pb);
    lemma_multiset_commutative(pb, pa);
    assert(pa.to_multiset().add(pb.to_multiset()) =~= pb.to_multiset().add(pa.to_multiset()));
    assert(roots_matched(Seq::<Seq<WalkItem>>::empty(), patterns, kinds) == Seq::<
        String,
    >::empty());
    assert(seq![a, b].drop_last() =~= seq![a]);
    assert(seq![a].drop_last() =~= Seq::<Seq<WalkItem>>::empty());
    assert(roots_matched(seq![a], patterns, kinds) =~= pa);
    assert(roots_matched(seq![a, b], patterns, kinds) =~= pa + pb);
    assert(seq![b, a].drop_last() =~= seq![b]);
    assert(seq![b].drop_last() =~= Seq::<Seq<WalkItem>>::empty());
    assert(roots_matched(seq![b], patterns, kinds) =~= pb);
    assert(roots_matched(seq![b, a], patterns, kinds) =~= pb + pa);
}

/// The end-to-end selection over one walk of the sample tree shape —
/// the root directory, a first text file, a subdirectory, a second text
/// file beneath it, and a hidden file — with one name pattern that
/// matches the two text files' names but not the hidden one's, and a
/// kind group holding `File` alone: exactly the two text files' paths
/// are selected, the shallower before the deeper, and the directories
/// are excluded whatever their names.
pub proof fn lemma_sample_tree_selection(
    root: Entry,
    a: Entry,
    sub: Entry,
    b: Entry,
    hidden: Entry,
    p: Seq<char>,
)
    requires
        root.kind == EntryKind::Directory,
        sub.kind == EntryKind::Directory,
        a.kind == EntryKind::File,
        b.kind == EntryKind::File,
        hidden.kind == EntryKind::File,
        regex_match(p, a.name@),
        regex_match(p, b.name@),
        !regex_match(p, hidden.name@),
    ensures
        matched_paths(
            seq![
                WalkItem::Found(root),
                WalkItem::Found(a),
                WalkItem::Found(sub),
                WalkItem::Found(b),
                WalkItem::Found(hidden),
            ],
            seq![p],
            seq![EntryKind::File],
        ) == seq![a.path, b.path],
{
    let patterns = seq![p];
    let kinds = seq![EntryKind::File];
    assert(patterns[0] == p);
    assert(kinds[0] == EntryKind::File);
    assert(name_matches(patterns, a.name@));
    assert(name_matches(patterns, b.name@));
    assert forall|i: int| 0 <= i < patterns.len() implies !regex_match(
        #[trigger] patterns[i],
        hidden.name@,
    ) by {
        assert(patterns[i] == p);
    }
    assert(!name_matches(patterns, hidden.name@));
    assert(kind_matches(kinds, EntryKind::File));
    assert(!kinds.contains(EntryKind::Directory));
    let s5 = seq![
        WalkItem::Found(root),
        WalkItem::Found(a),
        WalkItem::Found(sub),
        WalkItem::Found(b),
        WalkItem::Found(hidden),
    ];
    let s4 = seq![WalkItem::Found(root), WalkItem::Found(a), WalkItem::Found(sub), WalkItem::Found(b)];
    let s3 = seq![WalkItem::Found(root), WalkItem::Found(a), WalkItem::Found(sub)];
    let s2 = seq![WalkItem::Found(root), WalkItem::Found(a)];
    let s1 = seq![WalkItem::Found(root)];
    assert(s5.drop_last() =~= s4);
    assert(s4.drop_last() =~= s3);
    assert(s3.drop_last() =~= s2);
    assert(s2.drop_last() =~= s1);
    assert(s1.drop_last() =~= Seq::<WalkItem>::empty());
    assert(matched_paths(Seq::<WalkItem>::empty(), patterns, kinds) == Seq::<String>::empty());
    assert(matched_paths(s1, patterns, kinds) =~= Seq::<String>::empty());
    assert(matched_paths(s2, patterns, kinds) =~= seq![a.path]);
    assert(matched_paths(s3, patterns, kinds) =~= seq![a.path]);
    assert(matched_paths(s4, patterns, kinds) =~= seq![a.path, b.path]);
    assert(matched_paths(s5, patterns, kinds) =~= seq![a.path, b.path]);
}

} // verus!
