//! The state of the build window and how it answers the user's actions:
//! the window draws from an `AppState` and hands each click or edit to
//! `AppState::handle`, which says what to do next.

use vstd::prelude::*;
use crate::text::{bool_text, copy_texts};

verus! {

/// The settings saved for later sessions.
pub struct Config {
    pub target_ip: String,
    pub project_folder: String,
    pub arch: String,
    pub bit: String,
    pub target_os: String,
    pub is_release: bool,
}

/// The saved settings as plain values.
pub struct ConfigView {
    pub target_ip: Seq<char>,
    pub project_folder: Seq<char>,
    pub arch: Seq<char>,
    pub bit: Seq<char>,
    pub target_os: Seq<char>,
    pub is_release: bool,
}

impl View for Config {
    type V = ConfigView;

    open spec fn view(&self) -> ConfigView {
        ConfigView {
            target_ip: self.target_ip@,
            project_folder: self.project_folder@,
            arch: self.arch@,
            bit: self.bit@,
            target_os: self.target_os@,
            is_release: self.is_release,
        }
    }
}

/// Everything a remote build is started with.
pub struct CompileJob {
    pub host: String,
    pub arch: String,
    pub bit: String,
    pub os: String,
    pub project_folder: String,
    pub target_location: String,
    pub is_release: bool,
}

/// A remote build's settings as plain values.
pub struct CompileJobView {
    pub host: Seq<char>,
    pub arch: Seq<char>,
    pub bit: Seq<char>,
    pub os: Seq<char>,
    pub project_folder: Seq<char>,
    pub target_location: Seq<char>,
    pub is_release: bool,
}

impl View for CompileJob {
    type V = CompileJobView;

    open spec fn view(&self) -> CompileJobView {
        CompileJobView {
            host: self.host@,
            arch: self.arch@,
            bit: self.bit@,
            os: self.os@,
            project_folder: self.project_folder@,
            target_location: self.target_location@,
            is_release: self.is_release,
        }
    }
}

/// What the user did in the window.
pub enum UiEvent {
    /// The text of the "user@host" field changed.
    EditIp(String),
    ChooseX86,
    ChooseArm,
    Choose64Bit,
    Choose32Bit,
    ChooseWindows,
    ChooseLinux,
    ChooseDebug,
    ChooseRelease,
    /// The text of the remote build directory field changed.
    EditTargetLocation(String),
    /// A folder was picked; `has_main_rs` tells whether the file at
    /// `main_rs_probe(path)` exists.
    FolderPicked { path: String, has_main_rs: bool },
    CompileClicked,
}

/// A user action as plain values.
pub enum UiEventView {
    EditIp(Seq<char>),
    ChooseX86,
    ChooseArm,
    Choose64Bit,
    Choose32Bit,
    ChooseWindows,
    ChooseLinux,
    ChooseDebug,
    ChooseRelease,
    EditTargetLocation(Seq<char>),
    FolderPicked { path: Seq<char>, has_main_rs: bool },
    CompileClicked,
}

impl View for UiEvent {
    type V = UiEventView;

    open spec fn view(&self) -> UiEventView {
        match self {
            UiEvent::EditIp(t) => UiEventView::EditIp(t@),
            UiEvent::ChooseX86 => UiEventView::ChooseX86,
            UiEvent::ChooseArm => UiEventView::ChooseArm,
            UiEvent::Choose64Bit => UiEventView::Choose64Bit,
            UiEvent::Choose32Bit => UiEventView::Choose32Bit,
            UiEvent::ChooseWindows => UiEventView::ChooseWindows,
            UiEvent::ChooseLinux => UiEventView::ChooseLinux,
            UiEvent::ChooseDebug => UiEventView::ChooseDebug,
            UiEvent::ChooseRelease => UiEventView::ChooseRelease,
            UiEvent::EditTargetLocation(t) => UiEventView::EditTargetLocation(t@),
            UiEvent::FolderPicked { path, has_main_rs } => UiEventView::FolderPicked {
                path: path@,
                has_main_rs: *has_main_rs,
            },
            UiEvent::CompileClicked => UiEventView::CompileClicked,
        }
    }
}

/// What the window has to do after an event.
pub enum UiAction {
    Nothing,
    /// Start the remote build.
    Compile(CompileJob),
    /// Write the settings to the save file, then start the remote build.
    SaveAndCompile(Config, CompileJob),
}

/// An action as plain values.
pub enum UiActionView {
    Nothing,
    Compile(CompileJobView),
    SaveAndCompile(ConfigView, CompileJobView),
}

impl View for UiAction {
    type V = UiActionView;

    open spec fn view(&self) -> UiActionView {
        match self {
            UiAction::Nothing => UiActionView::Nothing,
            UiAction::Compile(j) => UiActionView::Compile(j@),
            UiAction::SaveAndCompile(c, j) => UiActionView::SaveAndCompile(c@, j@),
        }
    }
}

/// The state of the build window.
pub struct AppState {
    /// The SSH destination, `user@host`.
    pub ip: String,
    /// The architecture part of the target, `x86_` or `aarch`.
    pub arch: String,
    /// The word-size part of the target, `64-` or `32-`.
    pub bit: String,
    /// Whether a remote build has been started.
    pub compiling: bool,
    /// The build output shown in the window.
    pub logs: Vec<String>,
    /// The operating-system part of the target.
    pub os: String,
    /// The folder last picked, as shown in the window.
    pub picked_path: Option<String>,
    /// The project folder a build uses.
    pub final_path: String,
    /// Whether a project folder with `src/main.rs` has been picked.
    pub picked: bool,
    /// The directory the project is built in on the remote machine.
    pub target_location: String,
    /// Whether the build uses the release profile.
    pub is_release: bool,
    /// Whether the settings have been written to the save file.
    pub saved: bool,
    /// Whether settings have been loaded from the save file.
    pub loaded: bool,
}

/// The window's state as plain values.
pub struct AppView {
    pub ip: Seq<char>,
    pub arch: Seq<char>,
    pub bit: Seq<char>,
    pub compiling: bool,
    pub logs: Seq<Seq<char>>,
    pub os: Seq<char>,
    pub picked_path: Option<Seq<char>>,
    pub final_path: Seq<char>,
    pub picked: bool,
    pub target_location: Seq<char>,
    pub is_release: bool,
    pub saved: bool,
    pub loaded: bool,
}

impl View for AppState {
    type V = AppView;

    open spec fn view(&self) -> AppView {
        AppView {
            ip: self.ip@,
            arch: self.arch@,
            bit: self.bit@,
            compiling: self.compiling,
            logs: self.logs.deep_view(),
            os: self.os@,
            picked_path: match self.picked_path {
                Some(p) => Some(p@),
                None => None,
            },
            final_path: self.final_path@,
            picked: self.picked,
            target_location: self.target_location@,
            is_release: self.is_release,
            saved: self.saved,
            loaded: self.loaded,
        }
    }
}

/// The state a new window starts in.
pub open spec fn initial_view() -> AppView {
    AppView {
        ip: "user@server"@,
        arch: "x86_"@,
        bit: "64-"@,
        compiling: false,
        logs: seq!["ssh logs show here"@],
        os: "windows-gnu"@,
        picked_path: Some(""@),
        final_path: ""@,
        picked: false,
        target_location: "/tmp/extraction"@,
        is_release: false,
        saved: false,
        loaded: false,
    }
}

/// The settings a state saves.
pub open spec fn config_of(s: AppView) -> ConfigView {
    ConfigView {
        target_ip: s.ip,
        project_folder: s.final_path,
        arch: s.arch,
        bit: s.bit,
        target_os: s.os,
        is_release: s.is_release,
    }
}

/// The state after loading saved settings.
pub open spec fn with_config(s: AppView, c: ConfigView) -> AppView {
    AppView {
        arch: c.arch,
        bit: c.bit,
        ip: c.target_ip,
        final_path: c.project_folder,
        is_release: c.is_release,
        os: c.target_os,
        loaded: true,
        ..s
    }
}

/// The remote build a state starts.
pub open spec fn job_of(s: AppView) -> CompileJobView {
    CompileJobView {
        host: s.ip,
        arch: s.arch,
        bit: s.bit,
        os: s.os,
        project_folder: s.final_path,
        target_location: s.target_location,
        is_release: s.is_release,
    }
}

/// Whether the compile button is offered and answers a click.
pub open spec fn can_compile(s: AppView) -> bool {
    !s.compiling && s.picked
}

/// The state after an event.
pub open spec fn next_view(s: AppView, e: UiEventView) -> AppView {
    match e {
        UiEventView::EditIp(t) => AppView { ip: t, ..s },
        UiEventView::ChooseX86 => AppView { arch: "x86_"@, ..s },
        UiEventView::ChooseArm => AppView { arch: "aarch"@, ..s },
        UiEventView::Choose64Bit => AppView { bit: "64-"@, ..s },
        UiEventView::Choose32Bit => AppView { bit: "32-"@, ..s },
        UiEventView::ChooseWindows => AppView { os: "pc-windows-gnu"@, ..s },
        UiEventView::ChooseLinux => AppView { os: "unknown-linux-gnu"@, ..s },
        UiEventView::ChooseDebug => AppView { is_release: false, ..s },
        UiEventView::ChooseRelease => AppView { is_release: true, ..s },
        UiEventView::EditTargetLocation(t) => AppView { target_location: t, ..s },
        UiEventView::FolderPicked { path, has_main_rs } => if has_main_rs {
            AppView { picked_path: Some(path), final_path: path, picked: true, ..s }
        } else {
            AppView { picked_path: Some(""@), final_path: ""@, ..s }
        },
        UiEventView::CompileClicked => if can_compile(s) {
            AppView { saved: true, compiling: true, ..s }
        } else {
            s
        },
    }
}

/// What the window does after an event.
pub open spec fn action_view(s: AppView, e: UiEventView) -> UiActionView {
    match e {
        UiEventView::CompileClicked => if !can_compile(s) {
            UiActionView::Nothing
        } else if !s.saved {
            UiActionView::SaveAndCompile(config_of(s), job_of(s))
        } else {
            UiActionView::Compile(job_of(s))
        },
        _ => UiActionView::Nothing,
    }
}

/// Whether an action starts a remote build.
pub open spec fn starts_build(a: UiActionView) -> bool {
    a !is Nothing
}

/// Whether an action writes the save file.
pub open spec fn writes_save(a: UiActionView) -> bool {
    a is SaveAndCompile
}

/// The state after a run of events.
pub open spec fn run_view(s: AppView, es: Seq<UiEventView>) -> AppView
    decreases es.len(),
{
    if es.len() == 0 {
        s
    } else {
        run_view(next_view(s, es[0]), es.drop_first())
    }
}

/// How many remote builds a run of events starts.
pub open spec fn builds_started(s: AppView, es: Seq<UiEventView>) -> nat
    decreases es.len(),
{
    if es.len() == 0 {
        0
    } else {
        (if starts_build(action_view(s, es[0])) { 1nat } else { 0nat }) + builds_started(
            next_view(s, es[0]),
            es.drop_first(),
        )
    }
}

/// How many times a run of events writes the save file.
pub open spec fn saves_written(s: AppView, es: Seq<UiEventView>) -> nat
    decreases es.len(),
{
    if es.len() == 0 {
        0
    } else {
        (if writes_save(action_view(s, es[0])) { 1nat } else { 0nat }) + saves_written(
            next_view(s, es[0]),
            es.drop_first(),
        )
    }
}

/// The build window's log lines after taking the shared log, which is
/// copied only when the two differ in length.
pub open spec fn synced_logs(s: AppView, shared: Seq<Seq<char>>) -> AppView {
    if s.logs.len() != shared.len() {
        AppView { logs: shared, ..s }
    } else {
        s
    }
}

/// The status line shown under the settings.
pub open spec fn status_line_of(s: AppView) -> Seq<char> {
    "machine "@ + s.ip + ", architecture "@ + s.arch + ", "@ + s.bit + " bit, target os "@ + s.os
        + ", is release build, "@ + (if s.is_release { "true"@ } else { "false"@ })
}

/// The file whose existence shows that a folder holds a Rust program.
pub fn main_rs_probe(folder: &str) -> (r: String)
    ensures
        r@ == folder@ + "/src/main.rs"@,
{
    let mut r = folder.to_owned();
    r.append("/src/main.rs");
    r
}

/// The save file looked for when settings are loaded: `save.toml` under
/// the path of the running executable.
pub fn load_path(executable: &str) -> (r: String)
    ensures
        r@ == executable@ + "/save.toml"@,
{
    let mut r = executable.to_owned();
    r.append("/save.toml");
    r
}

impl AppState {
    /// A new window's state.
    pub fn new() -> (r: Self)
        ensures
            r@ == initial_view(),
    {
        let mut logs: Vec<String> = Vec::new();
        logs.push("ssh logs show here".to_owned());
        let r = AppState {
            ip: "user@server".to_owned(),
            arch: "x86_".to_owned(),
            bit: "64-".to_owned(),
            compiling: false,
            logs,
            os: "windows-gnu".to_owned(),
            picked_path: Some("".to_owned()),
            final_path: "".to_owned(),
            picked: false,
            target_location: "/tmp/extraction".to_owned(),
            is_release: false,
            saved: false,
            loaded: false,
        };
        assert(r.logs.deep_view() =~= seq!["ssh logs show here"@]);
        r
    }

    /// The settings to save.
    pub fn config(&self) -> (r: Config)
        ensures
            r@ == config_of(self@),
    {
        Config {
            target_ip: self.ip.clone(),
            arch: self.arch.clone(),
            project_folder: self.final_path.clone(),
            bit: self.bit.clone(),
            target_os: self.os.clone(),
            is_release: self.is_release,
        }
    }

    /// Whether the window tries to load the save file before drawing.
    pub fn wants_saved_settings(&self) -> (r: bool)
        ensures
            r == self.loaded,
    {
        self.loaded
    }

    /// Takes over settings read from the save file.
    pub fn load_config(&mut self, c: Config)
        ensures
            final(self)@ == with_config(old(self)@, c@),
    {
        self.arch = c.arch;
        self.bit = c.bit;
        self.ip = c.target_ip;
        self.final_path = c.project_folder;
        self.is_release = c.is_release;
        self.os = c.target_os;
        self.loaded = true;
    }

    /// Takes the shared build output when its length differs from the
    /// lines shown.
    pub fn sync_logs(&mut self, shared: &Vec<String>)
        ensures
            final(self)@ == synced_logs(old(self)@, shared.deep_view()),
    {
        if shared.len() != self.logs.len() {
            self.logs = copy_texts(shared);
        }
    }

    /// The status line shown under the settings.
    pub fn status_line(&self) -> (r: String)
        ensures
            r@ == status_line_of(self@),
            r@ == "machine "@ + self.ip@ + ", architecture "@ + self.arch@ + ", "@ + self.bit@
                + " bit, target os "@ + self.os@ + ", is release build, "@ + (if self.is_release {
                "true"@
            } else {
                "false"@
            }),
    {
        let mut r = "machine ".to_owned();
        r.append(self.ip.as_str());
        r.append(", architecture ");
        r.append(self.arch.as_str());
        r.append(", ");
        r.append(self.bit.as_str());
        r.append(" bit, target os ");
        r.append(self.os.as_str());
        r.append(", is release build, ");
        let b = bool_text(self.is_release);
        r.append(b.as_str());
        r
    }

    /// The remote build this state starts.
    fn job(&self) -> (r: CompileJob)
        ensures
            r@ == job_of(self@),
    {
        CompileJob {
            host: self.ip.clone(),
            arch: self.arch.clone(),
            bit: self.bit.clone(),
            os: self.os.clone(),
            project_folder: self.final_path.clone(),
            target_location: self.target_location.clone(),
            is_release: self.is_release,
        }
    }

    /// Answers one event: updates the state and says what to do.
    pub fn handle(&mut self, e: UiEvent) -> (a: UiAction)
        ensures
            final(self)@ == next_view(old(self)@, e@),
            a@ == action_view(old(self)@, e@),
    {
        match e {
            UiEvent::EditIp(t) => {
                self.ip = t;
                UiAction::Nothing
            },
            UiEvent::ChooseX86 => {
                self.arch = "x86_".to_owned();
                UiAction::Nothing
            },
            UiEvent::ChooseArm => {
                self.arch = "aarch".to_owned();
                UiAction::Nothing
            },
            UiEvent::Choose64Bit => {
                self.bit = "64-".to_owned();
                UiAction::Nothing
            },
            UiEvent::Choose32Bit => {
                self.bit = "32-".to_owned();
                UiAction::Nothing
            },
            UiEvent::ChooseWindows => {
                self.os = "pc-windows-gnu".to_owned();
                UiAction::Nothing
            },
            UiEvent::ChooseLinux => {
                self.os = "unknown-linux-gnu".to_owned();
                UiAction::Nothing
            },
            UiEvent::ChooseDebug => {
                self.is_release = false;
                UiAction::Nothing
            },
            UiEvent::ChooseRelease => {
                self.is_release = true;
                UiAction::Nothing
            },
            UiEvent::EditTargetLocation(t) => {
                self.target_location = t;
                UiAction::Nothing
            },
            UiEvent::FolderPicked { path, has_main_rs } => {
                if has_main_rs {
                    self.final_path = path.clone();
                    self.picked_path = Some(path);
                    self.picked = true;
                } else {
                    self.picked_path = Some("".to_owned());
                    self.final_path = "".to_owned();
                }
                UiAction::Nothing
            },
            UiEvent::CompileClicked => {
                if self.compiling || !self.picked {
                    return UiAction::Nothing;
                }
                let job = self.job();
                let action = if !self.saved {
                    let c = self.config();
                    self.saved = true;
                    UiAction::SaveAndCompile(c, job)
                } else {
                    UiAction::Compile(job)
                };
                self.compiling = true;
                action
            },
        }
    }
}


/// No event takes back a started build, a picked project, a written save
/// file or loaded settings, and no event loads settings.
pub proof fn lemma_step_keeps_progress(s: AppView, e: UiEventView)
    ensures
        s.compiling ==> next_view(s, e).compiling,
        s.picked ==> next_view(s, e).picked,
        s.saved ==> next_view(s, e).saved,
        next_view(s, e).loaded == s.loaded,
{
}

/// A build starts only from a state that offers the compile button, and it
/// starts with that state's settings and leaves the window compiling.
pub proof fn lemma_build_start(s: AppView, e: UiEventView)
    requires
        starts_build(action_view(s, e)),
    ensures
        e is CompileClicked,
        s.picked,
        !s.compiling,
        next_view(s, e).compiling,
        next_view(s, e).saved,
        action_view(s, e) == (if s.saved {
            UiActionView::Compile(job_of(s))
        } else {
            UiActionView::SaveAndCompile(config_of(s), job_of(s))
        }),
{
}

/// Any run of events starts at most one remote build, and none once one
/// has been started.
pub proof fn lemma_at_most_one_build(s: AppView, es: Seq<UiEventView>)
    ensures
        builds_started(s, es) <= (if s.compiling { 0nat } else { 1nat }),
    decreases es.len(),
{
    if es.len() > 0 {
        let n = next_view(s, es[0]);
        lemma_at_most_one_build(n, es.drop_first());
        lemma_step_keeps_progress(s, es[0]);
        if starts_build(action_view(s, es[0])) {
            lemma_build_start(s, es[0]);
        }
    }
}

/// Any run of events writes the save file at most once, and not at all
/// once it has been written.
pub proof fn lemma_at_most_one_save(s: AppView, es: Seq<UiEventView>)
    ensures
        saves_written(s, es) <= (if s.saved { 0nat } else { 1nat }),
    decreases es.len(),
{
    if es.len() > 0 {
        let n = next_view(s, es[0]);
        lemma_at_most_one_save(n, es.drop_first());
        lemma_step_keeps_progress(s, es[0]);
        if writes_save(action_view(s, es[0])) {
            lemma_build_start(s, es[0]);
        }
    }
}

/// Events never load saved settings: a window keeps the `loaded` flag it
/// started with, so one started by `AppState::new` never loads them.
pub proof fn lemma_events_never_load(s: AppView, es: Seq<UiEventView>)
    ensures
        run_view(s, es).loaded == s.loaded,
    decreases es.len(),
{
    if es.len() > 0 {
        lemma_events_never_load(next_view(s, es[0]), es.drop_first());
    }
}

/// Loading the settings a state saves gives that state back, marked as
/// loaded.
pub proof fn lemma_config_round_trip(s: AppView)
    ensures
        with_config(s, config_of(s)) == (AppView { loaded: true, ..s }),
{
}

/// `ChooseX86` sets `arch` to "x86_" and changes nothing else, and asks for nothing.
pub proof fn lemma_choosex86(s: AppView)
    ensures
        next_view(s, UiEventView::ChooseX86).arch == "x86_"@,
        next_view(s, UiEventView::ChooseX86).ip == s.ip,
        next_view(s, UiEventView::ChooseX86).bit == s.bit,
        next_view(s, UiEventView::ChooseX86).compiling == s.compiling,
        next_view(s, UiEventView::ChooseX86).logs == s.logs,
        next_view(s, UiEventView::ChooseX86).os == s.os,
        next_view(s, UiEventView::ChooseX86).picked_path == s.picked_path,
        next_view(s, UiEventView::ChooseX86).final_path == s.final_path,
        next_view(s, UiEventView::ChooseX86).picked == s.picked,
        next_view(s, UiEventView::ChooseX86).target_location == s.target_location,
        next_view(s, UiEventView::ChooseX86).is_release == s.is_release,
        next_view(s, UiEventView::ChooseX86).saved == s.saved,
        next_view(s, UiEventView::ChooseX86).loaded == s.loaded,
        action_view(s, UiEventView::ChooseX86) == UiActionView::Nothing,
{
}

/// `ChooseArm` sets `arch` to "aarch" and changes nothing else, and asks for nothing.
pub proof fn lemma_choosearm(s: AppView)
    ensures
        next_view(s, UiEventView::ChooseArm).arch == "aarch"@,
        next_view(s, UiEventView::ChooseArm).ip == s.ip,
        next_view(s, UiEventView::ChooseArm).bit == s.bit,
        next_view(s, UiEventView::ChooseArm).compiling == s.compiling,
        next_view(s, UiEventView::ChooseArm).logs == s.logs,
        next_view(s, UiEventView::ChooseArm).os == s.os,
        next_view(s, UiEventView::ChooseArm).picked_path == s.picked_path,
        next_view(s, UiEventView::ChooseArm).final_path == s.final_path,
        next_view(s, UiEventView::ChooseArm).picked == s.picked,
        next_view(s, UiEventView::ChooseArm).target_location == s.target_location,
        next_view(s, UiEventView::ChooseArm).is_release == s.is_release,
        next_view(s, UiEventView::ChooseArm).saved == s.saved,
        next_view(s, UiEventView::ChooseArm).loaded == s.loaded,
        action_view(s, UiEventView::ChooseArm) == UiActionView::Nothing,
{
}

/// `Choose64Bit` sets `bit` to "64-" and changes nothing else, and asks for nothing.
pub proof fn lemma_choose64bit(s: AppView)
    ensures
        next_view(s, UiEventView::Choose64Bit).bit == "64-"@,
        next_view(s, UiEventView::Choose64Bit).ip == s.ip,
        next_view(s, UiEventView::Choose64Bit).arch == s.arch,
        next_view(s, UiEventView::Choose64Bit).compiling == s.compiling,
        next_view(s, UiEventView::Choose64Bit).logs == s.logs,
        next_view(s, UiEventView::Choose64Bit).os == s.os,
        next_view(s, UiEventView::Choose64Bit).picked_path == s.picked_path,
        next_view(s, UiEventView::Choose64Bit).final_path == s.final_path,
        next_view(s, UiEventView::Choose64Bit).picked == s.picked,
        next_view(s, UiEventView::Choose64Bit).target_location == s.target_location,
        next_view(s, UiEventView::Choose64Bit).is_release == s.is_release,
        next_view(s, UiEventView::Choose64Bit).saved == s.saved,
        next_view(s, UiEventView::Choose64Bit).loaded == s.loaded,
        action_view(s, UiEventView::Choose64Bit) == UiActionView::Nothing,
{
}

/// `Choose32Bit` sets `bit` to "32-" and changes nothing else, and asks for nothing.
pub proof fn lemma_choose32bit(s: AppView)
    ensures
        next_view(s, UiEventView::Choose32Bit).bit == "32-"@,
        next_view(s, UiEventView::Choose32Bit).ip == s.ip,
        next_view(s, UiEventView::Choose32Bit).arch == s.arch,
        next_view(s, UiEventView::Choose32Bit).compiling == s.compiling,
        next_view(s, UiEventView::Choose32Bit).logs == s.logs,
        next_view(s, UiEventView::Choose32Bit).os == s.os,
        next_view(s, UiEventView::Choose32Bit).picked_path == s.picked_path,
        next_view(s, UiEventView::Choose32Bit).final_path == s.final_path,
        next_view(s, UiEventView::Choose32Bit).picked == s.picked,
        next_view(s, UiEventView::Choose32Bit).target_location == s.target_location,
        next_view(s, UiEventView::Choose32Bit).is_release == s.is_release,
        next_view(s, UiEventView::Choose32Bit).saved == s.saved,
        next_view(s, UiEventView::Choose32Bit).loaded == s.loaded,
        action_view(s, UiEventView::Choose32Bit) == UiActionView::Nothing,
{
}

/// `ChooseWindows` sets `os` to "pc-windows-gnu" and changes nothing else, and asks for nothing.
pub proof fn lemma_choosewindows(s: AppView)
    ensures
        next_view(s, UiEventView::ChooseWindows).os == "pc-windows-gnu"@,
        next_view(s, UiEventView::ChooseWindows).ip == s.ip,
        next_view(s, UiEventView::ChooseWindows).arch == s.arch,
        next_view(s, UiEventView::ChooseWindows).bit == s.bit,
        next_view(s, UiEventView::ChooseWindows).compiling == s.compiling,
        next_view(s, UiEventView::ChooseWindows).logs == s.logs,
        next_view(s, UiEventView::ChooseWindows).picked_path == s.picked_path,
        next_view(s, UiEventView::ChooseWindows).final_path == s.final_path,
        next_view(s, UiEventView::ChooseWindows).picked == s.picked,
        next_view(s, UiEventView::ChooseWindows).target_location == s.target_location,
        next_view(s, UiEventView::ChooseWindows).is_release == s.is_release,
        next_view(s, UiEventView::ChooseWindows).saved == s.saved,
        next_view(s, UiEventView::ChooseWindows).loaded == s.loaded,
        action_view(s, UiEventView::ChooseWindows) == UiActionView::Nothing,
{
}

/// `ChooseLinux` sets `os` to "unknown-linux-gnu" and changes nothing else, and asks for nothing.
pub proof fn lemma_chooselinux(s: AppView)
    ensures
        next_view(s, UiEventView::ChooseLinux).os == "unknown-linux-gnu"@,
        next_view(s, UiEventView::ChooseLinux).ip == s.ip,
        next_view(s, UiEventView::ChooseLinux).arch == s.arch,
        next_view(s, UiEventView::ChooseLinux).bit == s.bit,
        next_view(s, UiEventView::ChooseLinux).compiling == s.compiling,
        next_view(s, UiEventView::ChooseLinux).logs == s.logs,
        next_view(s, UiEventView::ChooseLinux).picked_path == s.picked_path,
        next_view(s, UiEventView::ChooseLinux).final_path == s.final_path,
        next_view(s, UiEventView::ChooseLinux).picked == s.picked,
        next_view(s, UiEventView::ChooseLinux).target_location == s.target_location,
        next_view(s, UiEventView::ChooseLinux).is_release == s.is_release,
        next_view(s, UiEventView::ChooseLinux).saved == s.saved,
        next_view(s, UiEventView::ChooseLinux).loaded == s.loaded,
        action_view(s, UiEventView::ChooseLinux) == UiActionView::Nothing,
{
}

/// `ChooseDebug` sets `is_release` to false and changes nothing else, and asks for nothing.
pub proof fn lemma_choosedebug(s: AppView)
    ensures
        next_view(s, UiEventView::ChooseDebug).is_release == false,
        next_view(s, UiEventView::ChooseDebug).ip == s.ip,
        next_view(s, UiEventView::ChooseDebug).arch == s.arch,
        next_view(s, UiEventView::ChooseDebug).bit == s.bit,
        next_view(s, UiEventView::ChooseDebug).compiling == s.compiling,
        next_view(s, UiEventView::ChooseDebug).logs == s.logs,
        next_view(s, UiEventView::ChooseDebug).os == s.os,
        next_view(s, UiEventView::ChooseDebug).picked_path == s.picked_path,
        next_view(s, UiEventView::ChooseDebug).final_path == s.final_path,
        next_view(s, UiEventView::ChooseDebug).picked == s.picked,
        next_view(s, UiEventView::ChooseDebug).target_location == s.target_location,
        next_view(s, UiEventView::ChooseDebug).saved == s.saved,
        next_view(s, UiEventView::ChooseDebug).loaded == s.loaded,
        action_view(s, UiEventView::ChooseDebug) == UiActionView::Nothing,
{
}

/// `ChooseRelease` sets `is_release` to true and changes nothing else, and asks for nothing.
pub proof fn lemma_chooserelease(s: AppView)
    ensures
        next_view(s, UiEventView::ChooseRelease).is_release == true,
        next_view(s, UiEventView::ChooseRelease).ip == s.ip,
        next_view(s, UiEventView::ChooseRelease).arch == s.arch,
        next_view(s, UiEventView::ChooseRelease).bit == s.bit,
        next_view(s, UiEventView::ChooseRelease).compiling == s.compiling,
        next_view(s, UiEventView::ChooseRelease).logs == s.logs,
        next_view(s, UiEventView::ChooseRelease).os == s.os,
        next_view(s, UiEventView::ChooseRelease).picked_path == s.picked_path,
        next_view(s, UiEventView::ChooseRelease).final_path == s.final_path,
        next_view(s, UiEventView::ChooseRelease).picked == s.picked,
        next_view(s, UiEventView::ChooseRelease).target_location == s.target_location,
        next_view(s, UiEventView::ChooseRelease).saved == s.saved,
        next_view(s, UiEventView::ChooseRelease).loaded == s.loaded,
        action_view(s, UiEventView::ChooseRelease) == UiActionView::Nothing,
{
}

/// `EditIp` takes the edited text as `ip` and changes nothing else.
pub proof fn lemma_editip(s: AppView, t: Seq<char>)
    ensures
        next_view(s, UiEventView::EditIp(t)).ip == t,
        next_view(s, UiEventView::EditIp(t)).arch == s.arch,
        next_view(s, UiEventView::EditIp(t)).bit == s.bit,
        next_view(s, UiEventView::EditIp(t)).compiling == s.compiling,
        next_view(s, UiEventView::EditIp(t)).logs == s.logs,
        next_view(s, UiEventView::EditIp(t)).os == s.os,
        next_view(s, UiEventView::EditIp(t)).picked_path == s.picked_path,
        next_view(s, UiEventView::EditIp(t)).final_path == s.final_path,
        next_view(s, UiEventView::EditIp(t)).picked == s.picked,
        next_view(s, UiEventView::EditIp(t)).target_location == s.target_location,
        next_view(s, UiEventView::EditIp(t)).is_release == s.is_release,
        next_view(s, UiEventView::EditIp(t)).saved == s.saved,
        next_view(s, UiEventView::EditIp(t)).loaded == s.loaded,
        action_view(s, UiEventView::EditIp(t)) == UiActionView::Nothing,
{
}

/// `EditTargetLocation` takes the edited text as `target_location` and changes nothing else.
pub proof fn lemma_edittargetlocation(s: AppView, t: Seq<char>)
    ensures
        next_view(s, UiEventView::EditTargetLocation(t)).target_location == t,
        next_view(s, UiEventView::EditTargetLocation(t)).ip == s.ip,
        next_view(s, UiEventView::EditTargetLocation(t)).arch == s.arch,
        next_view(s, UiEventView::EditTargetLocation(t)).bit == s.bit,
        next_view(s, UiEventView::EditTargetLocation(t)).compiling == s.compiling,
        next_view(s, UiEventView::EditTargetLocation(t)).logs == s.logs,
        next_view(s, UiEventView::EditTargetLocation(t)).os == s.os,
        next_view(s, UiEventView::EditTargetLocation(t)).picked_path == s.picked_path,
        next_view(s, UiEventView::EditTargetLocation(t)).final_path == s.final_path,
        next_view(s, UiEventView::EditTargetLocation(t)).picked == s.picked,
        next_view(s, UiEventView::EditTargetLocation(t)).is_release == s.is_release,
        next_view(s, UiEventView::EditTargetLocation(t)).saved == s.saved,
        next_view(s, UiEventView::EditTargetLocation(t)).loaded == s.loaded,
        action_view(s, UiEventView::EditTargetLocation(t)) == UiActionView::Nothing,
{
}

/// Picking a folder with `src/main.rs` makes it the project, from any
/// state: it is shown, built and saved from then on, and a project counts
/// as picked.  Picking a folder without one clears the shown and used path
/// and leaves `picked` as it was.  Nothing else changes and nothing is
/// asked for.
pub proof fn lemma_folder_picked(s: AppView, path: Seq<char>, has_main_rs: bool)
    ensures
        ({
            let n = next_view(s, UiEventView::FolderPicked { path, has_main_rs });
            &&& has_main_rs ==> n.final_path == path && n.picked_path == Some(path) && n.picked
            &&& !has_main_rs ==> n.final_path == ""@ && n.picked_path == Some(""@) && n.picked == s.picked
            &&& n.ip == s.ip && n.arch == s.arch && n.bit == s.bit && n.os == s.os
            &&& n.target_location == s.target_location && n.is_release == s.is_release
            &&& n.compiling == s.compiling && n.saved == s.saved && n.loaded == s.loaded
            &&& n.logs == s.logs
        }),
        action_view(s, UiEventView::FolderPicked { path, has_main_rs }) == UiActionView::Nothing,
{
}

/// A compile click starts a build exactly when a project has been picked
/// and no build is running; it then saves the settings exactly when they
/// have not been saved.  The build and the saved settings carry the
/// state's settings field by field: host, architecture, word size,
/// system, project folder, build directory and profile.  Afterwards the
/// window is compiling and the settings count as saved; nothing else
/// changes.
pub proof fn lemma_compile_click(s: AppView)
    ensures
        ({
            let a = action_view(s, UiEventView::CompileClicked);
            let n = next_view(s, UiEventView::CompileClicked);
            &&& (a is Nothing) <==> (s.compiling || !s.picked)
            &&& (a is SaveAndCompile) <==> (!s.compiling && s.picked && !s.saved)
            &&& (a is Compile) <==> (!s.compiling && s.picked && s.saved)
            &&& a matches UiActionView::Compile(j) ==> {
                &&& j.host == s.ip && j.arch == s.arch && j.bit == s.bit && j.os == s.os
                &&& j.project_folder == s.final_path && j.target_location == s.target_location
                &&& j.is_release == s.is_release
            }
            &&& a matches UiActionView::SaveAndCompile(c, j) ==> {
                &&& j.host == s.ip && j.arch == s.arch && j.bit == s.bit && j.os == s.os
                &&& j.project_folder == s.final_path && j.target_location == s.target_location
                &&& j.is_release == s.is_release
                &&& c.target_ip == s.ip && c.arch == s.arch && c.bit == s.bit && c.target_os == s.os
                &&& c.project_folder == s.final_path && c.is_release == s.is_release
            }
            &&& !(a is Nothing) ==> n.compiling && n.saved
            &&& a is Nothing ==> n == s
            &&& n.ip == s.ip && n.arch == s.arch && n.bit == s.bit && n.os == s.os
            &&& n.final_path == s.final_path && n.picked_path == s.picked_path && n.picked == s.picked
            &&& n.target_location == s.target_location && n.is_release == s.is_release
            &&& n.loaded == s.loaded && n.logs == s.logs
        }),
{
}

/// A new window: host `user@server`, target `x86_` `64-` `windows-gnu`,
/// debug profile, build directory `/tmp/extraction`, one placeholder log
/// line, an empty picked path, and nothing picked, compiling, saved or
/// loaded.
pub proof fn lemma_new_window(s: AppView)
    requires
        s == initial_view(),
    ensures
        s.ip == "user@server"@ && s.arch == "x86_"@ && s.bit == "64-"@ && s.os == "windows-gnu"@,
        !s.is_release && s.target_location == "/tmp/extraction"@,
        s.logs == seq!["ssh logs show here"@],
        s.picked_path == Some(""@) && s.final_path == ""@,
        !s.picked && !s.compiling && !s.saved && !s.loaded,
{
}

/// The saved settings are the state's host, project folder, architecture,
/// word size, system and profile; loading settings takes each of them
/// back into the same field, marks them loaded and changes nothing else.
pub proof fn lemma_config_fields(s: AppView, c: ConfigView)
    ensures
        config_of(s).target_ip == s.ip && config_of(s).project_folder == s.final_path,
        config_of(s).arch == s.arch && config_of(s).bit == s.bit,
        config_of(s).target_os == s.os && config_of(s).is_release == s.is_release,
        ({
            let n = with_config(s, c);
            &&& n.ip == c.target_ip && n.final_path == c.project_folder && n.arch == c.arch
            &&& n.bit == c.bit && n.os == c.target_os && n.is_release == c.is_release && n.loaded
            &&& n.compiling == s.compiling && n.logs == s.logs && n.picked_path == s.picked_path
            &&& n.picked == s.picked && n.target_location == s.target_location && n.saved == s.saved
        }),
{
}

/// The shown log becomes the shared log when their lengths differ and is
/// kept otherwise; nothing else changes.
pub proof fn lemma_sync_logs_cases(s: AppView, shared: Seq<Seq<char>>)
    ensures
        s.logs.len() != shared.len() ==> synced_logs(s, shared).logs == shared,
        s.logs.len() == shared.len() ==> synced_logs(s, shared) == s,
        synced_logs(s, shared) == (AppView { logs: synced_logs(s, shared).logs, ..s }),
{
}

/// The status line starts with the host and ends with the chosen
/// profile: `true` for a release build, `false` for a debug build.
pub proof fn lemma_status_line_ends(s: AppView)
    ensures
        ({
            let line = status_line_of(s);
            let tail = ", is release build, "@ + (if s.is_release { "true"@ } else { "false"@ });
            let head = "machine "@ + s.ip;
            &&& line.len() >= head.len() + tail.len()
            &&& line.subrange(0, head.len() as int) == head
            &&& line.subrange(line.len() - tail.len(), line.len() as int) == tail
        }),
{
    let tail = ", is release build, "@ + (if s.is_release { "true"@ } else { "false"@ });
    let head = "machine "@ + s.ip;
    let mid = ", architecture "@ + s.arch + ", "@ + s.bit + " bit, target os "@ + s.os;
    let line = status_line_of(s);
    assert(line =~= head + mid + tail);
    assert(line.subrange(0, head.len() as int) =~= head);
    assert(line.subrange(line.len() - tail.len(), line.len() as int) =~= tail);
}

} // verus!
