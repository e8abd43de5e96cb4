use sshnetcomp::plan::{
    fetch_command, home_or_current, local_output_dir, local_output_path, manifest_path,
    output_line, plan_build, profile_dir, release_flag, remote_shell_command,
};

#[test]
fn debug_build_plan() {
    let p = plan_build("x86_", "64-", "unknown-linux-gnu", "/tmp/extraction", false, "hello");
    assert_eq!(p.triple, "x86_64-unknown-linux-gnu");
    assert_eq!(p.remote_executable, "/tmp/extraction/target/x86_64-unknown-linux-gnu/debug/hello");
    assert_eq!(
        p.build_command,
        "mkdir -pv /tmp/extraction && cd /tmp/extraction && tar -xvf /tmp/extraction/gobstap.tar.gz -C /tmp/extraction && rm /tmp/extraction/gobstap.tar.gz && $HOME/.cargo/bin/cargo build  --target x86_64-unknown-linux-gnu"
    );
}

#[test]
fn release_build_plan_for_windows_arm() {
    let p = plan_build("aarch", "64-", "pc-windows-gnu", "/srv/b", true, "app");
    assert_eq!(p.triple, "aarch64-pc-windows-gnullvm");
    assert_eq!(p.remote_executable, "/srv/b/target/aarch64-pc-windows-gnullvm/release/app");
    assert_eq!(
        p.build_command,
        "mkdir -pv /srv/b && cd /srv/b && tar -xvf /tmp/extraction/gobstap.tar.gz -C /srv/b && rm /tmp/extraction/gobstap.tar.gz && $HOME/.cargo/bin/cargo build --release --target aarch64-pc-windows-gnullvm"
    );
}

#[test]
fn build_plan_for_i686() {
    let p = plan_build("x86_", "32-", "pc-windows-gnu", "/b", false, "x");
    assert_eq!(p.triple, "i686-pc-windows-gnu");
    assert_eq!(p.remote_executable, "/b/target/i686-pc-windows-gnu/debug/x");
    assert!(p.build_command.ends_with(" --target i686-pc-windows-gnu"));
}

#[test]
fn profile_flags() {
    assert_eq!(release_flag(true), "--release");
    assert_eq!(release_flag(false), "");
    assert_eq!(profile_dir(true), "/release/");
    assert_eq!(profile_dir(false), "/debug/");
}

#[test]
fn paths_and_commands() {
    assert_eq!(manifest_path("/home/u/proj"), "/home/u/proj/Cargo.toml");
    assert_eq!(remote_shell_command("ls -l"), "bash -c 'ls -l' 2>&1");
    assert_eq!(fetch_command("/b/target/x/debug/p"), "cat /b/target/x/debug/p");
    assert_eq!(local_output_dir("/home/u"), "/home/u/sshnetcomp");
    assert_eq!(local_output_path("/home/u", "proj"), "/home/u/sshnetcomp/proj");
}

#[test]
fn home_fallback() {
    assert_eq!(home_or_current(Some("/home/u".to_string())), "/home/u");
    assert_eq!(home_or_current(None), ".");
}

#[test]
fn output_lines() {
    assert_eq!(output_line(0, ""), None);
    assert_eq!(output_line(0, "left over\n"), None);
    assert_eq!(output_line(12, "   Compiling x\n"), Some("   Compiling x".to_string()));
    assert_eq!(output_line(2, "\r\n"), Some(String::new()));
}
