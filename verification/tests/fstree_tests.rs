//! Size accounting over tree snapshots: partial-failure tolerance,
//! saturation, and accounting consistency.

use heft::fstree::{FsNode, FsNodeKind, FsTree, calculate_dir_size};

fn comp(parts: &[&str]) -> Vec<String> {
    parts.iter().map(|s| s.to_string()).collect()
}

fn dir(parts: &[&str]) -> FsNode {
    FsNode { path: comp(parts), kind: FsNodeKind::Dir }
}

fn file(parts: &[&str], size: u64) -> FsNode {
    FsNode { path: comp(parts), kind: FsNodeKind::File { size, mtime: None, content: None } }
}

fn unreadable(parts: &[&str], message: &str) -> FsNode {
    FsNode { path: comp(parts), kind: FsNodeKind::ReadError { message: message.to_string() } }
}

#[test]
fn sums_regular_files_under_path() {
    let tree = FsTree {
        root: comp(&["", "r"]),
        nodes: vec![
            dir(&["", "r"]),
            file(&["", "r", "a"], 100),
            dir(&["", "r", "sub"]),
            file(&["", "r", "sub", "b"], 50),
        ],
    };
    let (total, warnings) = calculate_dir_size(&tree, &comp(&["", "r"]));
    assert_eq!(total, 150);
    assert!(warnings.is_empty());
}

#[test]
fn unreadable_nested_file_still_sums_the_rest() {
    // one unreadable entry: the sum of all other readable files survives,
    // with at least one warning and no hard failure
    let tree = FsTree {
        root: comp(&["", "r"]),
        nodes: vec![
            dir(&["", "r"]),
            file(&["", "r", "a"], 100),
            unreadable(&["", "r", "locked"], "permission denied: /r/locked"),
            file(&["", "r", "b"], 50),
        ],
    };
    let (total, warnings) = calculate_dir_size(&tree, &comp(&["", "r"]));
    assert_eq!(total, 150);
    assert_eq!(warnings.len(), 1);
    assert_eq!(warnings[0], "permission denied: /r/locked");
}

#[test]
fn size_saturates_with_one_warning() {
    let tree = FsTree {
        root: comp(&["", "r"]),
        nodes: vec![
            dir(&["", "r"]),
            file(&["", "r", "a"], u64::MAX),
            file(&["", "r", "b"], u64::MAX),
            file(&["", "r", "c"], 5),
        ],
    };
    let (total, warnings) = calculate_dir_size(&tree, &comp(&["", "r"]));
    assert_eq!(total, u64::MAX);
    // exactly one warning for the whole call, not one per file
    assert_eq!(warnings.len(), 1);
    assert_eq!(
        warnings[0],
        "directory size exceeds u64::MAX, size capped at maximum value"
    );
}

#[test]
fn measuring_a_subtree_counts_only_its_files() {
    let tree = FsTree {
        root: comp(&["", "r"]),
        nodes: vec![
            dir(&["", "r"]),
            file(&["", "r", "outside"], 7),
            dir(&["", "r", "d"]),
            file(&["", "r", "d", "inside"], 11),
        ],
    };
    let (total, _) = calculate_dir_size(&tree, &comp(&["", "r", "d"]));
    assert_eq!(total, 11);
}

#[test]
fn removing_a_subtree_accounts_exactly() {
    // measuring the whole, removing the artifact's nodes and re-measuring
    // drops the total by exactly the artifact's own measure
    let nodes = vec![
        dir(&["", "r"]),
        file(&["", "r", "keep"], 40),
        dir(&["", "r", "node_modules"]),
        file(&["", "r", "node_modules", "x"], 25),
        file(&["", "r", "node_modules", "y"], 35),
    ];
    let tree = FsTree { root: comp(&["", "r"]), nodes };
    let (before, _) = calculate_dir_size(&tree, &comp(&["", "r"]));
    let (artifact, _) = calculate_dir_size(&tree, &comp(&["", "r", "node_modules"]));

    let kept: Vec<FsNode> = tree
        .nodes
        .into_iter()
        .filter(|n| !(n.path.len() >= 3 && n.path[2] == "node_modules"))
        .collect();
    let remaining = FsTree { root: comp(&["", "r"]), nodes: kept };
    let (after, _) = calculate_dir_size(&remaining, &comp(&["", "r"]));

    assert_eq!(before, 100);
    assert_eq!(artifact, 60);
    assert_eq!(after, before - artifact);
}

#[test]
fn zero_files_measure_zero() {
    let tree = FsTree { root: comp(&["", "r"]), nodes: vec![dir(&["", "r"])] };
    let (total, warnings) = calculate_dir_size(&tree, &comp(&["", "r"]));
    assert_eq!(total, 0);
    assert!(warnings.is_empty());
}
