use sshnetcomp::target::{resolve_parts, target_triple};

fn triple(arch: &str, bit: &str, os: &str) -> String {
    target_triple(arch, bit, os)
}

#[test]
fn x86_32_linux_is_i686() {
    assert_eq!(triple("x86_", "32-", "unknown-linux-gnu"), "i686-unknown-linux-gnu");
}

#[test]
fn x86_64_linux() {
    assert_eq!(triple("x86_", "64-", "unknown-linux-gnu"), "x86_64-unknown-linux-gnu");
}

#[test]
fn arm_linux_keeps_gnu() {
    assert_eq!(triple("aarch", "64-", "unknown-linux-gnu"), "aarch64-unknown-linux-gnu");
    assert_eq!(triple("aarch", "32-", "unknown-linux-gnu"), "aarch32-unknown-linux-gnu");
}

#[test]
fn x86_windows() {
    assert_eq!(triple("x86_", "64-", "pc-windows-gnu"), "x86_64-pc-windows-gnu");
    assert_eq!(triple("x86_", "32-", "pc-windows-gnu"), "i686-pc-windows-gnu");
}

#[test]
fn arm_windows_uses_gnullvm() {
    assert_eq!(triple("aarch", "64-", "pc-windows-gnu"), "aarch64-pc-windows-gnullvm");
    assert_eq!(triple("aarch", "32-", "pc-windows-gnu"), "aarch32-pc-windows-gnullvm");
}

#[test]
fn startup_settings_triple() {
    assert_eq!(triple("x86_", "64-", "windows-gnu"), "x86_64-windows-gnu");
}

#[test]
fn resolve_x86_32_drops_arch() {
    let (a, b, o) = resolve_parts("x86_", "32-", "pc-windows-gnu");
    assert_eq!(a, "");
    assert_eq!(b, "i686-");
    assert_eq!(o, "pc-windows-gnu");
}

#[test]
fn resolve_other_parts_unchanged() {
    let (a, b, o) = resolve_parts("riscv", "64gc-", "unknown-none");
    assert_eq!((a.as_str(), b.as_str(), o.as_str()), ("riscv", "64gc-", "unknown-none"));
}

#[test]
fn resolve_twice_same_as_once() {
    for arch in ["x86_", "aarch", ""] {
        for bit in ["64-", "32-", "i686-"] {
            for os in ["pc-windows-gnu", "unknown-linux-gnu", "pc-windows-gnullvm", "windows-gnu"] {
                let once = resolve_parts(arch, bit, os);
                let twice = resolve_parts(&once.0, &once.1, &once.2);
                assert_eq!(once, twice);
            }
        }
    }
}
