use sshnetcomp::archive::{entry_action, is_excluded_name, ArchiveWalk, WalkAction, WalkEvent};

#[test]
fn excluded_names() {
    assert!(is_excluded_name("target"));
    assert!(is_excluded_name(".git"));
    assert!(!is_excluded_name("src"));
    assert!(!is_excluded_name("Target"));
    assert!(!is_excluded_name(".gitignore"));
}

#[test]
fn excluded_entries_skipped_at_any_depth() {
    let dir = vec!["crates".to_string(), "inner".to_string()];
    assert!(matches!(entry_action(&dir, "target", true), WalkAction::Skip));
    assert!(matches!(entry_action(&dir, ".git", true), WalkAction::Skip));
    assert!(matches!(entry_action(&vec![], "target", false), WalkAction::Skip));
}

#[test]
fn directories_and_files_get_relative_paths() {
    match entry_action(&vec![], "src", true) {
        WalkAction::AddDirectory(p) => assert_eq!(p, vec!["src".to_string()]),
        _ => panic!("expected a directory"),
    }
    let dir = vec!["src".to_string()];
    match entry_action(&dir, "main.rs", false) {
        WalkAction::AddFile(p) => assert_eq!(p, vec!["src".to_string(), "main.rs".to_string()]),
        _ => panic!("expected a file"),
    }
}

fn entry(name: &str, is_dir: bool) -> WalkEvent {
    WalkEvent::Entry { name: name.to_string(), is_dir }
}

fn describe(a: WalkAction) -> String {
    match a {
        WalkAction::Skip => "skip".to_string(),
        WalkAction::AddDirectory(p) => format!("dir {}", p.join("/")),
        WalkAction::AddFile(p) => format!("file {}", p.join("/")),
        WalkAction::LeaveDirectory => "leave".to_string(),
    }
}

#[test]
fn walk_archives_in_preorder() {
    // project/{Cargo.toml, src/{main.rs, util/{a.rs}}, target/..., .git/..., README}
    let events = vec![
        entry("Cargo.toml", false),
        entry("src", true),
        entry("main.rs", false),
        entry("util", true),
        entry("a.rs", false),
        WalkEvent::EndOfDirectory,
        WalkEvent::EndOfDirectory,
        entry("target", true),
        entry(".git", true),
        entry("README", false),
        WalkEvent::EndOfDirectory,
    ];
    let mut walk = ArchiveWalk::new();
    assert!(!walk.is_done());
    let mut seen = Vec::new();
    for e in events {
        seen.push(describe(walk.step(e)));
    }
    assert!(walk.is_done());
    assert_eq!(
        seen,
        vec![
            "file Cargo.toml",
            "dir src",
            "file src/main.rs",
            "dir src/util",
            "file src/util/a.rs",
            "leave",
            "leave",
            "skip",
            "skip",
            "file README",
            "leave",
        ]
    );
}

#[test]
fn finished_walk_ignores_events() {
    let mut walk = ArchiveWalk::new();
    assert!(matches!(walk.step(WalkEvent::EndOfDirectory), WalkAction::LeaveDirectory));
    assert!(walk.is_done());
    assert!(matches!(walk.step(entry("x", false)), WalkAction::Skip));
    assert!(walk.is_done());
}
