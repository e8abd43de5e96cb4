//! What a remote build does: the paths it uses and the shell commands it
//! sends, computed from the user's settings and the project's name.

use vstd::prelude::*;
use crate::target::{target_triple, target_triple_of};
use crate::text::{is_trim_end_of, trim_end};

verus! {

/// The `cargo build` flag for the chosen profile.
pub open spec fn release_flag_of(is_release: bool) -> Seq<char> {
    if is_release { "--release"@ } else { ""@ }
}

/// The profile directory, with its slashes, under `target/<triple>`.
pub open spec fn profile_dir_of(is_release: bool) -> Seq<char> {
    if is_release { "/release/"@ } else { "/debug/"@ }
}

/// Where the built executable lies on the remote machine.
pub open spec fn remote_executable_of(
    target_location: Seq<char>,
    triple: Seq<char>,
    is_release: bool,
    project_name: Seq<char>,
) -> Seq<char> {
    target_location + "/target/"@ + triple + profile_dir_of(is_release) + project_name
}

/// The shell command run remotely: create and enter the build directory,
/// unpack the uploaded archive there, remove it, and build for the target.
pub open spec fn build_command_of(
    target_location: Seq<char>,
    triple: Seq<char>,
    is_release: bool,
) -> Seq<char> {
    "mkdir -pv "@ + target_location + " && cd "@ + target_location
        + " && tar -xvf /tmp/extraction/gobstap.tar.gz -C "@ + target_location
        + " && rm /tmp/extraction/gobstap.tar.gz && $HOME/.cargo/bin/cargo build "@
        + release_flag_of(is_release) + " --target "@ + triple
}

/// Everything a remote build needs to know about where things go.
pub struct BuildPlan {
    /// The target triple the project is built for.
    pub triple: String,
    /// The path of the built executable on the remote machine.
    pub remote_executable: String,
    /// The shell command that unpacks and builds the project remotely.
    pub build_command: String,
}

/// The `cargo build` flag for the chosen profile.
pub fn release_flag(is_release: bool) -> (r: String)
    ensures
        r@ == release_flag_of(is_release),
        r@ == (if is_release { "--release"@ } else { ""@ }),
{
    if is_release {
        "--release".to_owned()
    } else {
        "".to_owned()
    }
}

/// The profile directory under `target/<triple>`, with its slashes.
pub fn profile_dir(is_release: bool) -> (r: String)
    ensures
        r@ == profile_dir_of(is_release),
        r@ == (if is_release { "/release/"@ } else { "/debug/"@ }),
{
    if is_release {
        "/release/".to_owned()
    } else {
        "/debug/".to_owned()
    }
}

/// Plans a remote build of the project named `project_name` for the chosen
/// target, unpacked and built in `target_location` on the remote machine.
pub fn plan_build(
    arch: &str,
    bit: &str,
    os: &str,
    target_location: &str,
    is_release: bool,
    project_name: &str,
) -> (r: BuildPlan)
    ensures
        r.triple@ == target_triple_of(arch@, bit@, os@),
        r.remote_executable@ == remote_executable_of(
            target_location@,
            r.triple@,
            is_release,
            project_name@,
        ),
        r.build_command@ == build_command_of(target_location@, r.triple@, is_release),
        r.remote_executable@ == target_location@ + "/target/"@ + r.triple@ + (if is_release {
            "/release/"@
        } else {
            "/debug/"@
        }) + project_name@,
        r.build_command@ == "mkdir -pv "@ + target_location@ + " && cd "@ + target_location@
            + " && tar -xvf /tmp/extraction/gobstap.tar.gz -C "@ + target_location@
            + " && rm /tmp/extraction/gobstap.tar.gz && $HOME/.cargo/bin/cargo build "@ + (
        if is_release {
            "--release"@
        } else {
            ""@
        }) + " --target "@ + r.triple@,
{
    let triple = target_triple(arch, bit, os);
    let folder = profile_dir(is_release);
    let flag = release_flag(is_release);

    let mut exe = target_location.to_owned();
    exe.append("/target/");
    exe.append(triple.as_str());
    exe.append(folder.as_str());
    exe.append(project_name);

    let mut cmd = "mkdir -pv ".to_owned();
    cmd.append(target_location);
    cmd.append(" && cd ");
    cmd.append(target_location);
    cmd.append(" && tar -xvf /tmp/extraction/gobstap.tar.gz -C ");
    cmd.append(target_location);
    cmd.append(" && rm /tmp/extraction/gobstap.tar.gz && $HOME/.cargo/bin/cargo build ");
    cmd.append(flag.as_str());
    cmd.append(" --target ");
    cmd.append(triple.as_str());

    BuildPlan { triple, remote_executable: exe, build_command: cmd }
}

/// The path of the project's manifest, read for the project's name.
pub fn manifest_path(project_folder: &str) -> (r: String)
    ensures
        r@ == project_folder@ + "/Cargo.toml"@,
{
    let mut r = project_folder.to_owned();
    r.append("/Cargo.toml");
    r
}

/// The command line executed on the remote machine for a build command:
/// run by `bash`, with its error output joined to its standard output.
pub fn remote_shell_command(command: &str) -> (r: String)
    ensures
        r@ == "bash -c '"@ + command@ + "' 2>&1"@,
{
    let mut r = "bash -c '".to_owned();
    r.append(command);
    r.append("' 2>&1");
    r
}

/// The remote command that writes the built executable to standard output.
pub fn fetch_command(remote_executable: &str) -> (r: String)
    ensures
        r@ == "cat "@ + remote_executable@,
{
    let mut r = "cat ".to_owned();
    r.append(remote_executable);
    r
}

/// The home directory, or the current directory where none is known.
pub fn home_or_current(home: Option<String>) -> (r: String)
    ensures
        r@ == (match home {
            Some(h) => h@,
            None => "."@,
        }),
{
    match home {
        Some(h) => h,
        None => ".".to_owned(),
    }
}

/// The local directory that fetched executables are saved in.
pub fn local_output_dir(home: &str) -> (r: String)
    ensures
        r@ == home@ + "/sshnetcomp"@,
{
    let mut r = home.to_owned();
    r.append("/sshnetcomp");
    r
}

/// The local path a fetched executable is saved under.
pub fn local_output_path(home: &str, project_name: &str) -> (r: String)
    ensures
        r@ == home@ + "/sshnetcomp/"@ + project_name@,
{
    let mut r = home.to_owned();
    r.append("/sshnetcomp/");
    r.append(project_name);
    r
}

/// Decides, after one read of a line of the remote build's output, whether
/// the output has ended (nothing was read) or which line to show: the text
/// read without its trailing white space.
pub fn output_line(bytes_read: usize, raw_line: &str) -> (r: Option<String>)
    ensures
        bytes_read == 0 <==> r is None,
        r matches Some(l) ==> is_trim_end_of(l@, raw_line@),
{
    if bytes_read == 0 {
        None
    } else {
        Some(trim_end(raw_line))
    }
}

/// The built executable lies in the profile directory of the target
/// directory under the build directory, named exactly as the project:
/// `<location>/target/<triple>/release/<name>` or `…/debug/<name>`.
pub proof fn lemma_remote_executable_path(
    target_location: Seq<char>,
    triple: Seq<char>,
    is_release: bool,
    project_name: Seq<char>,
)
    ensures
        remote_executable_of(target_location, triple, is_release, project_name) == target_location
            + "/target/"@ + triple + (if is_release { "/release/"@ } else { "/debug/"@ }) + project_name,
        ({
            let p = remote_executable_of(target_location, triple, is_release, project_name);
            &&& p.len() >= project_name.len()
            &&& p.subrange(p.len() - project_name.len(), p.len() as int) == project_name
        }),
{
    let p = remote_executable_of(target_location, triple, is_release, project_name);
    let head = target_location + "/target/"@ + triple + profile_dir_of(is_release);
    assert(p == head + project_name);
    assert(p.subrange(head.len() as int, p.len() as int) =~= project_name);
}

/// The build command builds with `--release` exactly for the release
/// profile and for the given triple, after unpacking the uploaded archive
/// into the build directory.
pub proof fn lemma_build_command_text(target_location: Seq<char>, triple: Seq<char>, is_release: bool)
    ensures
        build_command_of(target_location, triple, is_release) == "mkdir -pv "@ + target_location
            + " && cd "@ + target_location + " && tar -xvf /tmp/extraction/gobstap.tar.gz -C "@
            + target_location
            + " && rm /tmp/extraction/gobstap.tar.gz && $HOME/.cargo/bin/cargo build "@ + (
        if is_release {
            "--release"@
        } else {
            ""@
        }) + " --target "@ + triple,
{
}

} // verus!
