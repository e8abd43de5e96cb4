# sshnetcomp

Builds a Rust project on a remote machine over SSH and fetches the
executable: the window collects the target (architecture, word size,
operating system, profile), the project folder packs into an archive that is
uploaded, built with `cargo build --target …` remotely, and the result is
saved under `~/sshnetcomp/<project name>`.

- `src/` — the verified library:
  - `target` — the target triple and its adjustments (`i686`, `gnullvm`);
  - `plan` — remote paths and shell commands of a build, output lines;
  - `session` — the window's state machine (`AppState::handle`) and its laws;
  - `archive` — which project entries are archived and under which path;
  - `text` — trimming of output lines and small text helpers.
- `app/` — the window (eframe), the SSH session, file and archive I/O.
- `tests/` — tests of the library on concrete values.
