use purge_cache_by_path::classify::{classify, FileStatus, PurgeDecision};

fn records(lines: &[&str]) -> Vec<String> {
    lines.iter().map(|s| s.to_string()).collect()
}

fn targets(d: PurgeDecision) -> Vec<String> {
    match d {
        PurgeDecision::Targeted(v) => v,
        PurgeDecision::Full => panic!("expected a targeted decision"),
    }
}

#[test]
fn empty_records_yield_empty_targeted() {
    let d = classify(&records(&[]), "example.com");
    assert!(targets(d).is_empty());
}

#[test]
fn dot_folder_is_skipped() {
    let d = classify(&records(&["M .git/config"]), "example.com");
    assert!(targets(d).is_empty());
}

#[test]
fn archetypes_is_skipped() {
    let d = classify(&records(&["M archetypes/default.md"]), "example.com");
    assert!(targets(d).is_empty());
}

#[test]
fn content_purges_by_sub_folder() {
    let d = classify(&records(&["M content/posts/hello.md"]), "example.com");
    assert_eq!(targets(d), vec!["example.com/posts".to_string()]);
}

#[test]
fn static_purges_by_sub_folder() {
    let d = classify(&records(&["M static/img/a.png"]), "example.com");
    assert_eq!(targets(d), vec!["example.com/img".to_string()]);
}

#[test]
fn content_without_sub_folder_purges_by_root() {
    let d = classify(&records(&["A content/index.md"]), "example.com");
    assert_eq!(targets(d), vec!["example.com/content".to_string()]);
}

#[test]
fn unrecognized_root_forces_full() {
    let d = classify(&records(&["M vendor/lib.go"]), "example.com");
    assert!(matches!(d, PurgeDecision::Full));
}

#[test]
fn full_wins_after_targets() {
    let d = classify(
        &records(&["M content/posts/a.md", "M vendor/lib.go"]),
        "example.com",
    );
    assert!(matches!(d, PurgeDecision::Full));
}

#[test]
fn full_wins_before_targets() {
    let d = classify(
        &records(&["M vendor/lib.go", "M content/posts/a.md"]),
        "example.com",
    );
    assert!(matches!(d, PurgeDecision::Full));
}

#[test]
fn root_level_change_is_skipped() {
    let d = classify(&records(&["M README.md"]), "example.com");
    assert!(targets(d).is_empty());
}

#[test]
fn whitespace_only_record_is_skipped() {
    let d = classify(&records(&["   ", ""]), "example.com");
    assert!(targets(d).is_empty());
}

#[test]
fn leading_slash_forces_full() {
    let d = classify(&records(&["M /etc/hosts"]), "example.com");
    assert!(matches!(d, PurgeDecision::Full));
}

#[test]
fn duplicate_targets_are_kept_in_order() {
    let d = classify(
        &records(&[
            "M content/posts/a.md",
            "M static/img/logo.png",
            "M content/posts/b.md",
        ]),
        "example.com",
    );
    assert_eq!(
        targets(d),
        vec![
            "example.com/posts".to_string(),
            "example.com/img".to_string(),
            "example.com/posts".to_string(),
        ]
    );
}

#[test]
fn skipped_and_kept_records_mix() {
    let d = classify(
        &records(&[
            "M .github/workflows/ci.yml",
            "M archetypes/default.md",
            "M content/notes/x.md",
        ]),
        "example.com",
    );
    assert_eq!(targets(d), vec!["example.com/notes".to_string()]);
}

#[test]
fn from_line_splits_status_and_path() {
    let fs = FileStatus::from_line("M\tcontent/posts/hello.md");
    assert_eq!(fs.status, "M");
    assert_eq!(fs.path, "content/posts/hello.md");
}

#[test]
fn from_line_joins_remaining_tokens() {
    let fs = FileStatus::from_line("R100 old.md new.md");
    assert_eq!(fs.status, "R100");
    assert_eq!(fs.path, "old.mdnew.md");
}

#[test]
fn folder_name_is_first_segment() {
    let fs = FileStatus {
        status: "M".to_string(),
        path: "content/posts/hello.md".to_string(),
    };
    assert_eq!(fs.get_folder_name(), "content");
}

#[test]
fn folder_name_of_rootless_path_is_sentinel() {
    let fs = FileStatus {
        status: "M".to_string(),
        path: "README.md".to_string(),
    };
    assert_eq!(fs.get_folder_name(), ".");
}

#[test]
fn path_vec_splits_on_separator() {
    let fs = FileStatus {
        status: "M".to_string(),
        path: "content/posts/hello.md".to_string(),
    };
    assert_eq!(fs.get_path_vec(), vec!["content", "posts", "hello.md"]);
}

#[test]
fn path_vec_keeps_empty_segments() {
    let fs = FileStatus {
        status: "M".to_string(),
        path: "content/".to_string(),
    };
    assert_eq!(fs.get_path_vec(), vec!["content", ""]);
}

#[test]
fn path_vec_of_rootless_path_is_sentinel_pair() {
    let fs = FileStatus {
        status: "M".to_string(),
        path: "README.md".to_string(),
    };
    assert_eq!(fs.get_path_vec(), vec![".", "README.md"]);
}
