use findr::engine::{filter_items, run};
use findr::entry::{Entry, EntryKind};
use findr::predicate::{build_predicates, KindPredicateSet, NamePredicateSet};
use findr::walk::{walk, TraversalError, WalkItem};

fn sets(names: &[&str], kinds: &[char]) -> (NamePredicateSet, KindPredicateSet) {
    let names: Vec<String> = names.iter().map(|s| s.to_string()).collect();
    let kinds: Vec<char> = kinds.to_vec();
    build_predicates(&names, &kinds).expect("patterns should compile")
}

/// Builds `root/{a.txt, sub/{b.txt, .hidden}}` and returns the guard and
/// the root path.
fn sample_tree() -> (tempfile::TempDir, String) {
    let dir = tempfile::tempdir().expect("make a scratch directory");
    let root = dir.path().to_str().expect("utf-8 path").to_string();
    fs_err::write(format!("{}/a.txt", root), "a").expect("write a.txt");
    fs_err::create_dir(format!("{}/sub", root)).expect("make sub");
    fs_err::write(format!("{}/sub/b.txt", root), "b").expect("write b.txt");
    fs_err::write(format!("{}/sub/.hidden", root), "h").expect("write .hidden");
    (dir, root)
}

#[test]
fn txt_files_of_the_sample_tree() {
    let (_guard, root) = sample_tree();
    let (names, kinds) = sets(&["\\.txt$"], &['f']);
    let (paths, reports, _) = run(&vec![root.clone()], &names, &kinds);
    assert_eq!(reports.len(), 0);
    assert_eq!(paths.len(), 2);
    assert!(paths.contains(&format!("{}/a.txt", root)));
    assert!(paths.contains(&format!("{}/sub/b.txt", root)));
}

#[test]
fn directories_of_the_sample_tree() {
    let (_guard, root) = sample_tree();
    let (names, kinds) = sets(&[], &['d']);
    let (paths, reports, _) = run(&vec![root.clone()], &names, &kinds);
    assert_eq!(reports.len(), 0);
    assert_eq!(paths.len(), 2);
    assert_eq!(paths[0], root);
    assert_eq!(paths[1], format!("{}/sub", root));
}

#[test]
fn symlink_to_directory_classifies_as_other() {
    let dir = tempfile::tempdir().expect("make a scratch directory");
    let root = dir.path().to_str().expect("utf-8 path").to_string();
    fs_err::create_dir(format!("{}/target", root)).expect("make target");
    symlink::symlink_dir(format!("{}/target", root), format!("{}/link", root))
        .expect("make symlink");
    let link = format!("{}/link", root);

    let (names, kinds) = sets(&[], &['l']);
    let (paths, reports, _) = run(&vec![root.clone()], &names, &kinds);
    assert_eq!(reports.len(), 0);
    assert_eq!(paths, vec![link.clone()]);

    // The link resolves to a directory, yet a directory filter must not
    // include it.
    let (names, kinds) = sets(&[], &['d']);
    let (paths, _, _) = run(&vec![root.clone()], &names, &kinds);
    assert!(!paths.contains(&link));
    assert!(paths.contains(&format!("{}/target", root)));
}

#[test]
fn symlink_to_file_is_not_a_file() {
    let dir = tempfile::tempdir().expect("make a scratch directory");
    let root = dir.path().to_str().expect("utf-8 path").to_string();
    fs_err::write(format!("{}/real", root), "r").expect("write real");
    symlink::symlink_file(format!("{}/real", root), format!("{}/alias", root))
        .expect("make symlink");

    let (names, kinds) = sets(&[], &['f']);
    let (paths, reports, _) = run(&vec![root.clone()], &names, &kinds);
    assert_eq!(reports.len(), 0);
    assert_eq!(paths, vec![format!("{}/real", root)]);
}

#[test]
fn file_root_is_a_single_entry_walk() {
    let dir = tempfile::tempdir().expect("make a scratch directory");
    let root = dir.path().to_str().expect("utf-8 path").to_string();
    let file = format!("{}/only.txt", root);
    fs_err::write(&file, "x").expect("write file");

    let mut walker = walk(&file);
    match walker.next_item() {
        Some(WalkItem::Found(e)) => {
            assert_eq!(e.path, file);
            assert_eq!(e.name, "only.txt");
            assert_eq!(e.kind, EntryKind::File);
        },
        _ => panic!("a file root must yield itself"),
    }
    assert!(walker.next_item().is_none());
}

#[test]
fn missing_root_is_reported_and_run_continues() {
    let (_guard, root) = sample_tree();
    let missing = format!("{}/no-such-dir", root);
    let (names, kinds) = sets(&[], &['f']);
    let (paths, reports, _) = run(&vec![missing.clone(), root.clone()], &names, &kinds);
    assert_eq!(reports.len(), 1);
    assert!(reports[0].contains("no-such-dir"));
    assert_eq!(paths.len(), 3);
    assert!(paths.contains(&format!("{}/a.txt", root)));
    assert!(paths.contains(&format!("{}/sub/b.txt", root)));
    assert!(paths.contains(&format!("{}/sub/.hidden", root)));
}

#[test]
fn failed_step_skips_nothing_else() {
    // One unreadable step between two readable siblings: both siblings
    // come through and the failure is reported exactly once.
    let found = |name: &str| {
        WalkItem::Found(Entry {
            path: format!("root/{}", name),
            name: name.to_string(),
            kind: EntryKind::File,
        })
    };
    let items = vec![
        found("left"),
        WalkItem::StepFailed(TraversalError {
            message: "root/locked: permission denied".to_string(),
        }),
        found("right"),
    ];
    let (names, kinds) = sets(&[], &[]);
    let (paths, reports) = filter_items(&items, &names, &kinds);
    assert_eq!(paths, vec!["root/left".to_string(), "root/right".to_string()]);
    assert_eq!(reports, vec!["root/locked: permission denied".to_string()]);
}

#[test]
fn empty_groups_emit_every_entry() {
    let (_guard, root) = sample_tree();
    let (names, kinds) = sets(&[], &[]);
    let (paths, reports, _) = run(&vec![root.clone()], &names, &kinds);
    assert_eq!(reports.len(), 0);
    assert_eq!(paths.len(), 5);
    assert!(paths.contains(&root));
    assert!(paths.contains(&format!("{}/a.txt", root)));
    assert!(paths.contains(&format!("{}/sub", root)));
    assert!(paths.contains(&format!("{}/sub/b.txt", root)));
    assert!(paths.contains(&format!("{}/sub/.hidden", root)));
}

#[test]
fn same_tree_walks_in_the_same_order() {
    let (_guard, root) = sample_tree();
    let (names, kinds) = sets(&[], &[]);
    let (first, _, _) = run(&vec![root.clone()], &names, &kinds);
    let (names, kinds) = sets(&[], &[]);
    let (second, _, _) = run(&vec![root.clone()], &names, &kinds);
    assert_eq!(first, second);
}

#[test]
fn root_order_shapes_emission_only() {
    let a = tempfile::tempdir().expect("make a scratch directory");
    let root_a = a.path().to_str().expect("utf-8 path").to_string();
    fs_err::write(format!("{}/one.txt", root_a), "1").expect("write one.txt");
    let b = tempfile::tempdir().expect("make a scratch directory");
    let root_b = b.path().to_str().expect("utf-8 path").to_string();
    fs_err::write(format!("{}/two.txt", root_b), "2").expect("write two.txt");

    let (names, kinds) = sets(&[], &[]);
    let (ab, _, _) = run(&vec![root_a.clone(), root_b.clone()], &names, &kinds);
    let (names, kinds) = sets(&[], &[]);
    let (ba, _, _) = run(&vec![root_b.clone(), root_a.clone()], &names, &kinds);

    let of_root = |paths: &Vec<String>, root: &str| -> Vec<String> {
        paths.iter().filter(|p| p.starts_with(root)).cloned().collect()
    };
    // The same entries per root, with the per-root order preserved.
    assert_eq!(of_root(&ab, &root_a), of_root(&ba, &root_a));
    assert_eq!(of_root(&ab, &root_b), of_root(&ba, &root_b));
    // The emission order follows the root order.
    let na = of_root(&ab, &root_a).len();
    assert_eq!(ab[..na], of_root(&ab, &root_a)[..]);
    let nb = of_root(&ba, &root_b).len();
    assert_eq!(ba[..nb], of_root(&ba, &root_b)[..]);
}
