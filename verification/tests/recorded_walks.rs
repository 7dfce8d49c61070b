use folder_compare::{CompareError, Fault, FileEntry, Finding, FolderCompare, Observed};

fn file(path: &str) -> FileEntry {
    FileEntry { path: path.to_string(), is_file: true, is_symlink: false }
}

fn missing(path: &str) -> Observed {
    Observed { entry: file(path), finding: Finding::Missing }
}

fn present(path: &str, ours: &str, theirs: &str) -> Observed {
    Observed {
        entry: file(path),
        finding: Finding::Present { ours: ours.as_bytes().to_vec(), theirs: theirs.as_bytes().to_vec() },
    }
}

fn unreadable(path: &str) -> Observed {
    let denied = std::io::Error::new(std::io::ErrorKind::PermissionDenied, "denied");
    Observed { entry: file(path), finding: Finding::Failed(denied) }
}

fn strings(items: &[&str]) -> Vec<String> {
    items.iter().map(|s| s.to_string()).collect()
}

#[test]
fn one_changed_one_new_one_ignored() {
    let excluded = strings(&[".doc", ".txt"]);
    let walk = vec![
        missing("/tmp/compare/a/test.abc"),
        present("/tmp/compare/a/test.xls", "Test", "Test2"),
        missing("/tmp/compare/a/test.txt"),
    ];
    let result = FolderCompare::new("/tmp/compare/a", "/tmp/compare/b", &excluded, walk).unwrap();
    assert_eq!((result.changed_files.len(), result.new_files.len()), (1, 1));
}

#[test]
fn new_changed_and_excluded_are_told_apart() {
    let excluded = strings(&[".txt"]);
    let walk = vec![
        missing("/data/a/test.abc"),
        present("/data/a/test.xls", "Test", "Test2"),
        missing("/data/a/test.txt"),
    ];
    let result = FolderCompare::new("/data/a", "/data/b", &excluded, walk).unwrap();
    assert_eq!(result.new_files, strings(&["/data/a/test.abc"]));
    assert_eq!(result.changed_files, strings(&["/data/a/test.xls"]));
    assert_eq!(result.unchanged_files, Vec::<String>::new());
}

#[test]
fn identical_trees_are_all_unchanged() {
    let walk = vec![
        present("/data/a/one", "first", "first"),
        present("/data/a/sub/two", "second", "second"),
        present("/data/a/sub/deep/three", "", ""),
    ];
    let result = FolderCompare::new("/data/a", "/data/b", &Vec::new(), walk).unwrap();
    assert_eq!(result.changed_files, Vec::<String>::new());
    assert_eq!(result.new_files, Vec::<String>::new());
    assert_eq!(
        result.unchanged_files,
        strings(&["/data/a/one", "/data/a/sub/two", "/data/a/sub/deep/three"])
    );
}

#[test]
fn without_a_second_tree_every_file_is_new() {
    let walk = vec![missing("/data/a/one"), missing("/data/a/two"), missing("/data/a/three")];
    let result = FolderCompare::new("/data/a", "/nowhere", &Vec::new(), walk).unwrap();
    assert_eq!(result.new_files, strings(&["/data/a/one", "/data/a/two", "/data/a/three"]));
    assert_eq!(result.changed_files, Vec::<String>::new());
    assert_eq!(result.unchanged_files, Vec::<String>::new());
}

#[test]
fn invalid_pattern_fails_before_the_walk() {
    let excluded = strings(&[".txt", "(unbalanced"]);
    let walk = vec![unreadable("/data/a/one"), missing("/elsewhere/two")];
    let failure = FolderCompare::new("/data/a", "/data/b", &excluded, walk).unwrap_err();
    assert!(matches!(failure, CompareError::Regex(_)));
    assert_eq!(failure.fault(), Fault::Pattern);
}

#[test]
fn empty_walk_gives_empty_lists() {
    let result = FolderCompare::new("/data/a", "/data/b", &Vec::new(), Vec::new()).unwrap();
    assert!(result.changed_files.is_empty());
    assert!(result.new_files.is_empty());
    assert!(result.unchanged_files.is_empty());
}

#[test]
fn one_differing_byte_is_a_change() {
    let walk = vec![present("/data/a/one", "content-a", "content-b")];
    let result = FolderCompare::new("/data/a", "/data/b", &Vec::new(), walk).unwrap();
    assert_eq!(result.changed_files, strings(&["/data/a/one"]));
    assert!(result.unchanged_files.is_empty());
}

#[test]
fn colliding_fingerprints_count_as_unchanged() {
    let walk = vec![Observed {
        entry: file("/data/a/zero"),
        finding: Finding::Present { ours: vec![], theirs: vec![0] },
    }];
    let result = FolderCompare::new("/data/a", "/data/b", &Vec::new(), walk).unwrap();
    assert_eq!(result.unchanged_files, strings(&["/data/a/zero"]));
    assert!(result.changed_files.is_empty());
}

#[test]
fn symlinks_and_directories_are_left_out() {
    let link = FileEntry { path: "/data/a/link".to_string(), is_file: true, is_symlink: true };
    let dir = FileEntry { path: "/data/a/sub".to_string(), is_file: false, is_symlink: false };
    let walk = vec![
        Observed { entry: dir, finding: Finding::Missing },
        Observed {
            entry: link,
            finding: Finding::Present { ours: b"x".to_vec(), theirs: b"y".to_vec() },
        },
        missing("/data/a/sub/file"),
    ];
    let result = FolderCompare::new("/data/a", "/data/b", &Vec::new(), walk).unwrap();
    assert_eq!(result.new_files, strings(&["/data/a/sub/file"]));
    assert!(result.changed_files.is_empty());
    assert!(result.unchanged_files.is_empty());
}

#[test]
fn patterns_match_the_full_path() {
    let excluded = strings(&["/sub/", "^/data/a/top\\.bin$"]);
    let walk = vec![
        missing("/data/a/sub/inner.bin"),
        missing("/data/a/top.bin"),
        missing("/data/a/top.bin.bak"),
        present("/data/a/subway", "a", "a"),
    ];
    let result = FolderCompare::new("/data/a", "/data/b", &excluded, walk).unwrap();
    assert_eq!(result.new_files, strings(&["/data/a/top.bin.bak"]));
    assert_eq!(result.unchanged_files, strings(&["/data/a/subway"]));
    assert!(result.changed_files.is_empty());
}

#[test]
fn entry_outside_the_first_root_fails() {
    let walk = vec![missing("/data/a/one"), missing("/elsewhere/two"), unreadable("/data/a/three")];
    let failure = FolderCompare::new("/data/a", "/data/b", &Vec::new(), walk).unwrap_err();
    assert!(matches!(failure, CompareError::StripPrefix(_)));
    assert_eq!(failure.fault(), Fault::PathMapping);
}

#[test]
fn excluded_entry_outside_the_first_root_is_skipped() {
    let excluded = strings(&["^/elsewhere"]);
    let walk = vec![missing("/elsewhere/two"), missing("/data/a/one")];
    let result = FolderCompare::new("/data/a", "/data/b", &excluded, walk).unwrap();
    assert_eq!(result.new_files, strings(&["/data/a/one"]));
}

#[test]
fn failed_read_fails_the_comparison() {
    let walk = vec![missing("/data/a/one"), unreadable("/data/a/two"), missing("/elsewhere/three")];
    let failure = FolderCompare::new("/data/a", "/data/b", &Vec::new(), walk).unwrap_err();
    assert_eq!(failure.fault(), Fault::Io);
    match failure {
        CompareError::Io(e) => assert_eq!(e.kind(), std::io::ErrorKind::PermissionDenied),
        other => panic!("unexpected failure: {:?}", other),
    }
}

#[test]
fn failed_read_of_an_excluded_file_counts_for_nothing() {
    let excluded = strings(&["two$"]);
    let walk = vec![missing("/data/a/one"), unreadable("/data/a/two")];
    let result = FolderCompare::new("/data/a", "/data/b", &excluded, walk).unwrap();
    assert_eq!(result.new_files, strings(&["/data/a/one"]));
}

#[test]
fn lists_keep_the_order_of_the_walk() {
    let walk = vec![
        missing("/data/a/z"),
        present("/data/a/y", "1", "2"),
        missing("/data/a/a"),
        present("/data/a/x", "3", "4"),
        present("/data/a/m", "5", "5"),
        missing("/data/a/z"),
    ];
    let result = FolderCompare::new("/data/a", "/data/b", &Vec::new(), walk).unwrap();
    assert_eq!(result.new_files, strings(&["/data/a/z", "/data/a/a", "/data/a/z"]));
    assert_eq!(result.changed_files, strings(&["/data/a/y", "/data/a/x"]));
    assert_eq!(result.unchanged_files, strings(&["/data/a/m"]));
}

#[test]
fn every_file_lands_in_exactly_one_list() {
    let paths = ["/data/a/1", "/data/a/2", "/data/a/3", "/data/a/4", "/data/a/5"];
    let walk = vec![
        missing(paths[0]),
        present(paths[1], "same", "same"),
        present(paths[2], "old", "new"),
        missing(paths[3]),
        present(paths[4], "", "x"),
    ];
    let result = FolderCompare::new("/data/a", "/data/b", &Vec::new(), walk).unwrap();
    let mut all: Vec<String> = Vec::new();
    all.extend(result.new_files.iter().cloned());
    all.extend(result.changed_files.iter().cloned());
    all.extend(result.unchanged_files.iter().cloned());
    all.sort();
    assert_eq!(all, strings(&paths));
}

#[test]
fn same_walk_twice_gives_the_same_lists() {
    let excluded = strings(&["\\.tmp$"]);
    let first = FolderCompare::new(
        "/data/a",
        "/data/b",
        &excluded,
        vec![missing("/data/a/n"), present("/data/a/c", "1", "2"), missing("/data/a/x.tmp")],
    )
    .unwrap();
    let second = FolderCompare::new(
        "/data/a",
        "/data/b",
        &excluded,
        vec![missing("/data/a/n"), present("/data/a/c", "1", "2"), missing("/data/a/x.tmp")],
    )
    .unwrap();
    assert_eq!(first.new_files, second.new_files);
    assert_eq!(first.changed_files, second.changed_files);
    assert_eq!(first.unchanged_files, second.unchanged_files);
}
