use sshnetcomp::session::{load_path, main_rs_probe, AppState, UiAction, UiEvent};

fn picked_state() -> AppState {
    let mut s = AppState::new();
    let a = s.handle(UiEvent::FolderPicked { path: "/home/u/proj".to_string(), has_main_rs: true });
    assert!(matches!(a, UiAction::Nothing));
    s
}

#[test]
fn new_window_defaults() {
    let s = AppState::new();
    assert_eq!(s.ip, "user@server");
    assert_eq!(s.arch, "x86_");
    assert_eq!(s.bit, "64-");
    assert!(!s.compiling);
    assert_eq!(s.logs, vec!["ssh logs show here".to_string()]);
    assert_eq!(s.os, "windows-gnu");
    assert_eq!(s.picked_path, Some(String::new()));
    assert_eq!(s.final_path, "");
    assert!(!s.picked);
    assert_eq!(s.target_location, "/tmp/extraction");
    assert!(!s.is_release);
    assert!(!s.saved);
    assert!(!s.loaded);
    assert!(!s.wants_saved_settings());
}

#[test]
fn buttons_set_parts() {
    let mut s = AppState::new();
    s.handle(UiEvent::ChooseArm);
    assert_eq!(s.arch, "aarch");
    s.handle(UiEvent::ChooseX86);
    assert_eq!(s.arch, "x86_");
    s.handle(UiEvent::Choose32Bit);
    assert_eq!(s.bit, "32-");
    s.handle(UiEvent::Choose64Bit);
    assert_eq!(s.bit, "64-");
    s.handle(UiEvent::ChooseLinux);
    assert_eq!(s.os, "unknown-linux-gnu");
    s.handle(UiEvent::ChooseWindows);
    assert_eq!(s.os, "pc-windows-gnu");
    s.handle(UiEvent::ChooseRelease);
    assert!(s.is_release);
    s.handle(UiEvent::ChooseDebug);
    assert!(!s.is_release);
    s.handle(UiEvent::EditIp("me@box".to_string()));
    assert_eq!(s.ip, "me@box");
    s.handle(UiEvent::EditTargetLocation("/srv/build".to_string()));
    assert_eq!(s.target_location, "/srv/build");
}

#[test]
fn compile_needs_a_project() {
    let mut s = AppState::new();
    assert!(matches!(s.handle(UiEvent::CompileClicked), UiAction::Nothing));
    assert!(!s.compiling);
    assert!(!s.saved);
}

#[test]
fn picking_a_rust_project() {
    let s = picked_state();
    assert!(s.picked);
    assert_eq!(s.final_path, "/home/u/proj");
    assert_eq!(s.picked_path, Some("/home/u/proj".to_string()));
}

#[test]
fn picking_a_bad_folder_clears_path_but_keeps_picked() {
    let mut s = picked_state();
    s.handle(UiEvent::FolderPicked { path: "/home/u/notes".to_string(), has_main_rs: false });
    assert_eq!(s.final_path, "");
    assert_eq!(s.picked_path, Some(String::new()));
    assert!(s.picked);

    let mut fresh = AppState::new();
    fresh.handle(UiEvent::FolderPicked { path: "/x".to_string(), has_main_rs: false });
    assert!(!fresh.picked);
    assert_eq!(fresh.final_path, "");
}

#[test]
fn first_compile_saves_and_starts_one_build() {
    let mut s = picked_state();
    s.handle(UiEvent::EditIp("me@box".to_string()));
    s.handle(UiEvent::ChooseRelease);
    match s.handle(UiEvent::CompileClicked) {
        UiAction::SaveAndCompile(c, j) => {
            assert_eq!(c.target_ip, "me@box");
            assert_eq!(c.project_folder, "/home/u/proj");
            assert_eq!(c.arch, "x86_");
            assert_eq!(c.bit, "64-");
            assert_eq!(c.target_os, "windows-gnu");
            assert!(c.is_release);
            assert_eq!(j.host, "me@box");
            assert_eq!(j.project_folder, "/home/u/proj");
            assert_eq!(j.target_location, "/tmp/extraction");
            assert_eq!(j.os, "windows-gnu");
            assert!(j.is_release);
        }
        _ => panic!("expected the settings to be saved and a build started"),
    }
    assert!(s.compiling);
    assert!(s.saved);
    for _ in 0..3 {
        assert!(matches!(s.handle(UiEvent::CompileClicked), UiAction::Nothing));
    }
}

#[test]
fn compile_after_saving_does_not_save_again() {
    let mut s = picked_state();
    s.saved = true;
    match s.handle(UiEvent::CompileClicked) {
        UiAction::Compile(j) => assert_eq!(j.host, "user@server"),
        _ => panic!("expected a build without saving"),
    }
}

#[test]
fn config_round_trip() {
    let mut s = picked_state();
    s.handle(UiEvent::ChooseArm);
    s.handle(UiEvent::Choose32Bit);
    let c = s.config();
    let mut t = AppState::new();
    t.load_config(c);
    assert_eq!(t.arch, "aarch");
    assert_eq!(t.bit, "32-");
    assert_eq!(t.final_path, "/home/u/proj");
    assert_eq!(t.ip, "user@server");
    assert!(t.loaded);
    assert!(t.wants_saved_settings());
    assert!(!t.picked);
}

#[test]
fn logs_sync_only_on_length_change() {
    let mut s = AppState::new();
    let shared = vec!["a".to_string(), "b".to_string()];
    s.sync_logs(&shared);
    assert_eq!(s.logs, shared);
    let same_len = vec!["c".to_string(), "d".to_string()];
    s.sync_logs(&same_len);
    assert_eq!(s.logs, shared);
}

#[test]
fn status_line_text() {
    let s = AppState::new();
    assert_eq!(
        s.status_line(),
        format!(
            "machine {}, architecture {}, {} bit, target os {}, is release build, {}",
            "user@server", "x86_", "64-", "windows-gnu", false
        )
    );
}

#[test]
fn probe_paths() {
    assert_eq!(main_rs_probe("/p"), "/p/src/main.rs");
    assert_eq!(load_path("/usr/bin/tool"), "/usr/bin/tool/save.toml");
}
