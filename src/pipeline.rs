//! The build pipeline as a state machine: the caller asks for the next action,
//! performs it, and hands back what happened. Connect, push and build fail
//! fast; each artifact pull only ever adds a warning.
use vstd::prelude::*;
use vstd::string::*;
use crate::commands::{
    args_of, build_line, master_args, mkdir_command, mkdir_line, probe_command, pull_args,
    pull_command, push_args, push_command, remote_build_command, ssh_args, tracked_files_command,
    untracked_files_command, uses_socket, CommandSpec, master_command,
};
use crate::config::Config;
use crate::select::{opt_views, select_manifest, selection, Listing};
use crate::session::Session;
use crate::status::{clear_text, render_clear, render_status, status_text, OutputLevel};
use crate::text::{concat3, join_lines, joined, owned, views};

verus! {

/// Why a run stopped.
pub enum PipelineError {
    /// Creating the remote directory over ssh failed; the remote's stderr.
    Setup { stderr: String },
    /// ssh could not be started to create the remote directory.
    SetupNotRun,
    /// The push exited unsuccessfully (`None`: killed by a signal).
    Push { code: Option<i32> },
    /// rsync could not be started for the push.
    PushNotRun,
    /// The remote build exited unsuccessfully (`None`: killed by a signal).
    Build { code: Option<i32> },
    /// ssh could not be started for the remote build.
    BuildNotRun,
}

/// The effect the caller performs next, and the event it answers with.
pub enum Action {
    /// Write text to stdout, or to stderr. Answer: `Done`.
    Print { text: String, to_stderr: bool },
    /// Whether a file exists. Answer: `Answer`.
    CheckExists { path: String },
    /// Run a command to completion. Answer: `Exited` or `NotStarted`.
    Run { command: CommandSpec },
    /// Start a command in the background without waiting. Answer: `Answer`.
    Spawn { command: CommandSpec },
    /// Wait a moment. Answer: `Done`.
    Pause { millis: u64 },
    /// Write a file. Answer: `Answer`.
    WriteFile { path: String, contents: String },
    /// Remove a file, ignoring failure. Answer: `Done`.
    RemoveFile { path: String },
    /// The run is over: the number of artifact warnings, or the fatal error.
    Finish { result: Result<usize, PipelineError> },
}

/// What performing an action gave.
pub enum Event {
    /// The action was performed.
    Done,
    /// The yes/no outcome of a check, a spawn or a write.
    Answer(bool),
    /// The process ran; its exit code (`None`: killed by a signal), its
    /// captured output lines and its captured stderr.
    Exited { code: Option<i32>, lines: Vec<String>, stderr: String },
    /// The process could not be started.
    NotStarted,
}

/// Where the run stands.
#[derive(Clone, Copy, Debug, PartialEq, Eq, Structural)]
pub enum Phase {
    /// The opening banner.
    Header,
    /// The sync status.
    AnnounceSync,
    /// Looking for an existing control socket.
    CheckSocket,
    /// Asking the existing socket whether its session is alive.
    Probe,
    /// Starting a background master session.
    OpenMaster,
    /// Giving the master a moment to come up.
    Settle,
    /// Creating the remote directory.
    MakeDir,
    /// Listing the paths version control knows.
    ListIndexed,
    /// Listing the untracked, not ignored paths.
    ListUntracked,
    /// Writing the selected paths to the manifest file.
    WriteManifest,
    /// Mirroring the project to the remote directory.
    Push,
    /// Removing the manifest file.
    Cleanup,
    /// Confirming the sync.
    SyncDone,
    /// Blanking the status line and announcing the build.
    AnnounceBuild,
    /// Running the remote build.
    Build,
    /// Confirming the build.
    BuildDone,
    /// The artifact status.
    AnnouncePull,
    /// Copying one artifact back.
    Pull,
    /// Reporting on that artifact.
    PullReport,
    /// Confirming the pulls.
    PullDone,
    /// The completion marker.
    Complete,
    /// The run is over.
    Finished,
}

/// Whether an event reports a successful exit.
pub open spec fn succeeded(e: Event) -> bool {
    match e {
        Event::Exited { code, .. } => code == Some(0i32),
        _ => false,
    }
}

/// A listing query's outcome as the file selector sees it.
pub open spec fn listing_of(e: Event) -> Listing {
    match e {
        Event::Exited { code, lines, .. } => if code == Some(0i32) {
            Listing::Listed(lines)
        } else {
            Listing::Failed
        },
        _ => Listing::Unavailable,
    }
}

/// The outcome of creating the remote directory: fine on a successful exit,
/// else the remote's stderr.
pub open spec fn setup_outcome(code: Option<i32>, stderr: Seq<char>) -> Result<(), Seq<char>> {
    if code == Some(0i32) {
        Ok(())
    } else {
        Err(stderr)
    }
}

/// Decides the outcome of an ssh command run for setup from its exit code and stderr.
pub fn run_ssh_command(code: Option<i32>, stderr: &str) -> (r: Result<(), PipelineError>)
    ensures
        code == Some(0i32) ==> r is Ok,
        code != Some(0i32) ==> (match r {
            Err(PipelineError::Setup { stderr: s }) => s@ == stderr@,
            _ => false,
        }),
{
    match code {
        Some(c) => if c == 0 {
            return Ok(());
        },
        None => {},
    }
    Err(PipelineError::Setup { stderr: owned(stderr) })
}

fn is_success(code: &Option<i32>) -> (r: bool)
    ensures
        r == (*code == Some(0i32)),
{
    match code {
        Some(c) => *c == 0,
        None => false,
    }
}

fn exited_ok(e: &Event) -> (r: bool)
    ensures
        r == succeeded(*e),
{
    match e {
        Event::Exited { code, .. } => is_success(code),
        _ => false,
    }
}

fn listing_from(e: Event) -> (r: Listing)
    ensures
        r == listing_of(e),
{
    match e {
        Event::Exited { code, lines, .. } => {
            if is_success(&code) {
                Listing::Listed(lines)
            } else {
                Listing::Failed
            }
        },
        _ => Listing::Unavailable,
    }
}

/// One run of the pipeline.
pub struct Pipeline {
    pub config: Config,
    pub session: Session,
    pub level: OutputLevel,
    pub project_dir: String,
    /// Where the manifest file is written, when one is used.
    pub manifest_path: String,
    /// Whether version control may restrict the pushed file set.
    pub incremental: bool,
    pub phase: Phase,
    /// The first listing query's outcome, kept until the second one answers.
    pub indexed: Listing,
    /// The selected paths, when incremental selection found any.
    pub manifest: Option<Vec<String>>,
    /// Whether the push reads its file list from `manifest_path`.
    pub use_manifest: bool,
    /// Whether `manifest_path` must be removed after the push.
    pub remove_manifest: bool,
    /// The number of artifacts to pull.
    pub artifact_count: usize,
    /// The index of the artifact being pulled.
    pub pulled: usize,
    /// Whether that artifact arrived.
    pub pull_ok: bool,
    /// The number of artifacts that could not be copied.
    pub warnings: usize,
    /// The fatal error, once there is one.
    pub failure: Option<PipelineError>,
}

impl Pipeline {
    /// The state's invariant.
    pub open spec fn wf(&self) -> bool {
        &&& self.artifact_count == self.config.artifacts@.len()
        &&& self.pulled <= self.config.artifacts@.len()
        &&& self.warnings <= self.pulled + if self.phase == Phase::PullReport {
            1int
        } else {
            0int
        }
        &&& (self.phase == Phase::Pull || self.phase == Phase::PullReport) ==> self.pulled
            < self.config.artifacts@.len()
        &&& self.phase == Phase::PullReport ==> (self.pull_ok ==> self.level
            == OutputLevel::Verbose)
        &&& self.use_manifest ==> self.remove_manifest
        &&& rank(self.phase) <= rank(Phase::WriteManifest) ==> !self.remove_manifest
        &&& rank(self.phase) <= rank(Phase::AnnouncePull) ==> self.pulled == 0
        &&& self.phase == Phase::WriteManifest ==> self.manifest is Some
        &&& self.failure is Some ==> (self.phase == Phase::Finished || self.phase == Phase::Cleanup)
    }

    /// A run of `config` through `session`. Incremental selection is on when
    /// the configuration asks for it and no full sync is forced.
    pub fn new(
        config: Config,
        session: Session,
        project_dir: &str,
        manifest_path: &str,
        force_full_sync: bool,
    ) -> (r: Pipeline)
        ensures
            r.wf(),
            r.phase == Phase::Header,
            r.incremental == (config.git_aware && !force_full_sync),
            r.config == config,
            r.session == session,
            r.project_dir@ == project_dir@,
            r.manifest_path@ == manifest_path@,
            r.level == crate::status::level_of(crate::status::lower_of(config.output@)),
            r.failure is None,
            r.warnings == 0,
            r.manifest is None,
            !r.use_manifest,
            !r.remove_manifest,
    {
        let level = config.output_level();
        let incremental = config.git_aware && !force_full_sync;
        let artifact_count = config.artifacts.len();
        Pipeline {
            config,
            session,
            level,
            project_dir: owned(project_dir),
            manifest_path: owned(manifest_path),
            incremental,
            phase: Phase::Header,
            indexed: Listing::Unavailable,
            manifest: None,
            use_manifest: false,
            remove_manifest: false,
            artifact_count,
            pulled: 0,
            pull_ok: false,
            warnings: 0,
            failure: None,
        }
    }
}

/// The banner that opens a run.
pub open spec fn header_text(level: OutputLevel, host: Seq<char>, dir: Seq<char>) -> Seq<char> {
    match level {
        OutputLevel::Minimal => "🚀 Remote Build: "@ + host + " "@,
        _ => "🚀 Remote Build Proxy\n   Host: "@ + host + "\n   Project: "@ + dir + "\n\n"@,
    }
}

/// The text before the remote build's output: the status line is blanked,
/// the build announced, and blanked again unless the tier is verbose.
pub open spec fn build_announce_text(level: OutputLevel) -> Seq<char> {
    clear_text(level) + status_text(level, "🔨 Building..."@) + if level == OutputLevel::Verbose {
        Seq::empty()
    } else {
        clear_text(level)
    }
}

/// The line reporting a copied artifact.
pub open spec fn copied_text(artifact: Seq<char>) -> Seq<char> {
    "   ✓ Copied: "@ + artifact + "\n"@
}

/// The warning for an artifact that could not be copied.
pub open spec fn warning_text(artifact: Seq<char>) -> Seq<char> {
    "   ⚠ Warning: Could not copy artifact: "@ + artifact + "\n"@
}

/// The completion marker that ends a successful run.
pub open spec fn complete_text(level: OutputLevel) -> Seq<char> {
    match level {
        OutputLevel::Minimal => "\r✅ Build complete!\n"@,
        _ => "\n✅ Build complete!\n"@,
    }
}

/// Whether `a` prints `text` to stdout.
pub open spec fn prints(a: Action, text: Seq<char>) -> bool {
    match a {
        Action::Print { text: t, to_stderr } => t@ == text && !to_stderr,
        _ => false,
    }
}

/// Whether `a` runs `program` with arguments `args`, capturing its output or
/// leaving it to the terminal, in directory `dir` or the current one.
pub open spec fn runs(
    a: Action,
    program: Seq<char>,
    args: Seq<Seq<char>>,
    capture: bool,
    dir: Option<Seq<char>>,
) -> bool {
    match a {
        Action::Run { command } => {
            &&& command.program@ == program
            &&& args_of(command) == args
            &&& command.capture == capture
            &&& match (command.dir, dir) {
                (None, None) => true,
                (Some(x), Some(d)) => x@ == d,
                _ => false,
            }
        },
        _ => false,
    }
}

/// Two errors are the same kind with the same details.
pub open spec fn same_error(a: PipelineError, b: PipelineError) -> bool {
    match (a, b) {
        (PipelineError::Setup { stderr: x }, PipelineError::Setup { stderr: y }) => x@ == y@,
        (PipelineError::SetupNotRun, PipelineError::SetupNotRun) => true,
        (PipelineError::Push { code: x }, PipelineError::Push { code: y }) => x == y,
        (PipelineError::PushNotRun, PipelineError::PushNotRun) => true,
        (PipelineError::Build { code: x }, PipelineError::Build { code: y }) => x == y,
        (PipelineError::BuildNotRun, PipelineError::BuildNotRun) => true,
        _ => false,
    }
}

/// The manifest file argument of the push, if the manifest is used.
pub open spec fn push_manifest(p: Pipeline) -> Option<Seq<char>> {
    if p.use_manifest {
        Some(p.manifest_path@)
    } else {
        None
    }
}

/// The action each phase asks for.
pub open spec fn expected_action(p: Pipeline, a: Action) -> bool {
    let cp = p.session.path_view();
    let host = p.session.host_view();
    let rp = p.config.remote_path@;
    match p.phase {
        Phase::Header => prints(a, header_text(p.level, host, p.project_dir@)),
        Phase::AnnounceSync => prints(a, status_text(p.level, "📦 Syncing files..."@)),
        Phase::CheckSocket => match a {
            Action::CheckExists { path } => path@ == cp,
            _ => false,
        },
        Phase::Probe => runs(a, "ssh"@, crate::commands::probe_args(cp, host), true, None),
        Phase::OpenMaster => match a {
            Action::Spawn { command } => command.program@ == "ssh"@ && args_of(command)
                == master_args(cp, host) && !command.capture && command.dir is None,
            _ => false,
        },
        Phase::Settle => a == Action::Pause { millis: 100 },
        Phase::MakeDir => runs(a, "ssh"@, ssh_args(cp, host, mkdir_line(rp)), true, None),
        Phase::ListIndexed => runs(a, "git"@, seq!["ls-files"@], true, Some(p.project_dir@)),
        Phase::ListUntracked => runs(
            a,
            "git"@,
            seq!["ls-files"@, "--others"@, "--exclude-standard"@],
            true,
            Some(p.project_dir@),
        ),
        Phase::WriteManifest => match (a, p.manifest) {
            (Action::WriteFile { path, contents }, Some(m)) => path@ == p.manifest_path@
                && contents@ == joined(views(m@)),
            _ => false,
        },
        Phase::Push => runs(
            a,
            "rsync"@,
            push_args(
                p.level,
                cp,
                host,
                rp,
                p.project_dir@,
                views(p.config.exclude_patterns@),
                push_manifest(p),
            ),
            false,
            None,
        ),
        Phase::Cleanup => match a {
            Action::RemoveFile { path } => path@ == p.manifest_path@,
            _ => false,
        },
        Phase::SyncDone => prints(a, "   ✓ Sync complete\n\n"@),
        Phase::AnnounceBuild => prints(a, build_announce_text(p.level)),
        Phase::Build => runs(
            a,
            "ssh"@,
            ssh_args(cp, host, build_line(rp, p.config.build_command@)),
            false,
            None,
        ),
        Phase::BuildDone => prints(a, "\n   ✓ Build complete\n\n"@),
        Phase::AnnouncePull => prints(a, status_text(p.level, "📥 Copying artifacts..."@)),
        Phase::Pull => runs(
            a,
            "rsync"@,
            pull_args(p.level, cp, host, rp, p.config.artifacts@[p.pulled as int]@),
            false,
            None,
        ),
        Phase::PullReport => {
            let name = p.config.artifacts@[p.pulled as int]@;
            match a {
                Action::Print { text, to_stderr } => if p.pull_ok {
                    text@ == copied_text(name) && !to_stderr
                } else {
                    text@ == warning_text(name) && to_stderr
                },
                _ => false,
            }
        },
        Phase::PullDone => prints(a, "   ✓ Artifacts downloaded\n\n"@),
        Phase::Complete => prints(a, complete_text(p.level)),
        Phase::Finished => match (a, p.failure) {
            (Action::Finish { result: Ok(n) }, None) => n == p.warnings,
            (Action::Finish { result: Err(e) }, Some(f)) => same_error(e, f),
            _ => false,
        },
    }
}

/// Every transport action goes through the control socket `cp`: ssh and
/// rsync commands name it, and the liveness check looks at it.
pub open spec fn through_session(a: Action, cp: Seq<char>) -> bool {
    match a {
        Action::Run { command } => command.program@ == "git"@ || uses_socket(command, cp),
        Action::Spawn { command } => uses_socket(command, cp),
        Action::CheckExists { path } => path@ == cp,
        _ => true,
    }
}

fn copy_error(e: &PipelineError) -> (r: PipelineError)
    ensures
        same_error(r, *e),
{
    match e {
        PipelineError::Setup { stderr } => PipelineError::Setup { stderr: owned(stderr.as_str()) },
        PipelineError::SetupNotRun => PipelineError::SetupNotRun,
        PipelineError::Push { code } => PipelineError::Push { code: *code },
        PipelineError::PushNotRun => PipelineError::PushNotRun,
        PipelineError::Build { code } => PipelineError::Build { code: *code },
        PipelineError::BuildNotRun => PipelineError::BuildNotRun,
    }
}

fn print(text: String) -> (r: Action)
    ensures
        prints(r, text@),
{
    Action::Print { text, to_stderr: false }
}

fn header(level: OutputLevel, host: &str, dir: &str) -> (r: String)
    ensures
        r@ == header_text(level, host@, dir@),
{
    match level {
        OutputLevel::Minimal => concat3("🚀 Remote Build: ", host, " "),
        _ => {
            let mut t = concat3("🚀 Remote Build Proxy\n   Host: ", host, "\n   Project: ");
            t.append(dir);
            t.append("\n\n");
            t
        },
    }
}

fn build_announce(level: OutputLevel) -> (r: String)
    ensures
        r@ == build_announce_text(level),
{
    let mut t = render_clear(level);
    let status = render_status(level, "🔨 Building...");
    t.append(status.as_str());
    match level {
        OutputLevel::Verbose => {
            assert(t@ =~= build_announce_text(level));
        },
        _ => {
            let again = render_clear(level);
            t.append(again.as_str());
        },
    }
    t
}

impl Pipeline {
    /// The action the current phase asks for.
    pub fn action(&self) -> (r: Action)
        requires
            self.wf(),
        ensures
            expected_action(*self, r),
            through_session(r, self.session.path_view()),
    {
        let s = &self.session;
        let rp = self.config.remote_path.as_str();
        match self.phase {
            Phase::Header => print(header(self.level, s.host(), self.project_dir.as_str())),
            Phase::AnnounceSync => print(render_status(self.level, "📦 Syncing files...")),
            Phase::CheckSocket => Action::CheckExists { path: owned(s.control_path()) },
            Phase::Probe => Action::Run { command: probe_command(s) },
            Phase::OpenMaster => Action::Spawn { command: master_command(s) },
            Phase::Settle => Action::Pause { millis: 100 },
            Phase::MakeDir => Action::Run { command: mkdir_command(s, rp) },
            Phase::ListIndexed => Action::Run {
                command: tracked_files_command(self.project_dir.as_str()),
            },
            Phase::ListUntracked => Action::Run {
                command: untracked_files_command(self.project_dir.as_str()),
            },
            Phase::WriteManifest => {
                let contents = match &self.manifest {
                    Some(m) => join_lines(m),
                    None => String::new(),
                };
                Action::WriteFile { path: owned(self.manifest_path.as_str()), contents }
            },
            Phase::Push => {
                let manifest = if self.use_manifest {
                    Some(self.manifest_path.as_str())
                } else {
                    None
                };
                Action::Run {
                    command: push_command(
                        s,
                        self.level,
                        rp,
                        self.project_dir.as_str(),
                        &self.config.exclude_patterns,
                        manifest,
                    ),
                }
            },
            Phase::Cleanup => Action::RemoveFile { path: owned(self.manifest_path.as_str()) },
            Phase::SyncDone => print(owned("   ✓ Sync complete\n\n")),
            Phase::AnnounceBuild => print(build_announce(self.level)),
            Phase::Build => Action::Run {
                command: remote_build_command(s, rp, self.config.build_command.as_str()),
            },
            Phase::BuildDone => print(owned("\n   ✓ Build complete\n\n")),
            Phase::AnnouncePull => print(render_status(self.level, "📥 Copying artifacts...")),
            Phase::Pull => Action::Run {
                command: pull_command(
                    s,
                    self.level,
                    rp,
                    self.config.artifacts[self.pulled].as_str(),
                ),
            },
            Phase::PullReport => {
                let name = self.config.artifacts[self.pulled].as_str();
                if self.pull_ok {
                    let t = concat3("   ✓ Copied: ", name, "\n");
                    Action::Print { text: t, to_stderr: false }
                } else {
                    let t = concat3("   ⚠ Warning: Could not copy artifact: ", name, "\n");
                    Action::Print { text: t, to_stderr: true }
                }
            },
            Phase::PullDone => print(owned("   ✓ Artifacts downloaded\n\n")),
            Phase::Complete => match self.level {
                OutputLevel::Minimal => print(owned("\r✅ Build complete!\n")),
                _ => print(owned("\n✅ Build complete!\n")),
            },
            Phase::Finished => match &self.failure {
                None => Action::Finish { result: Ok(self.warnings) },
                Some(e) => Action::Finish { result: Err(copy_error(e)) },
            },
        }
    }
}

/// The position of a phase in the run's order.
pub open spec fn rank(phase: Phase) -> int {
    match phase {
        Phase::Header => 0,
        Phase::AnnounceSync => 1,
        Phase::CheckSocket => 2,
        Phase::Probe => 3,
        Phase::OpenMaster => 4,
        Phase::Settle => 5,
        Phase::MakeDir => 6,
        Phase::ListIndexed => 7,
        Phase::ListUntracked => 8,
        Phase::WriteManifest => 9,
        Phase::Push => 10,
        Phase::Cleanup => 11,
        Phase::SyncDone => 12,
        Phase::AnnounceBuild => 13,
        Phase::Build => 14,
        Phase::BuildDone => 15,
        Phase::AnnouncePull => 16,
        Phase::Pull => 17,
        Phase::PullReport => 18,
        Phase::PullDone => 19,
        Phase::Complete => 20,
        Phase::Finished => 21,
    }
}

/// How much of the run is left: it falls with every step until the run is
/// finished, so every run finishes.
pub open spec fn progress(p: Pipeline) -> int {
    if p.phase == Phase::Finished {
        0
    } else {
        100 * (p.config.artifacts@.len() - p.pulled) + 100 - rank(p.phase)
    }
}

/// How one step relates the state before it (`a`), the event, and the state
/// after it (`b`).
pub open spec fn transition(a: Pipeline, b: Pipeline, event: Event) -> bool {
    &&& same_run(a, b)
    &&& a.phase != Phase::Finished ==> 0 <= progress(b) < progress(
        a,
    )
    &&& a.phase == Phase::Finished ==> b.phase == Phase::Finished
        && b.failure == a.failure
    &&& a.phase == Phase::CheckSocket ==> b.phase == (if event
        == Event::Answer(true) {
        Phase::Probe
    } else {
        Phase::OpenMaster
    })
    &&& a.phase == Phase::Probe ==> b.phase == (if succeeded(event) {
        Phase::MakeDir
    } else {
        Phase::OpenMaster
    })
    &&& a.phase == Phase::Header ==> b.phase == Phase::AnnounceSync
    &&& a.phase == Phase::AnnounceSync ==> b.phase == Phase::CheckSocket
    &&& a.phase == Phase::OpenMaster ==> b.phase == Phase::Settle
    &&& a.phase == Phase::SyncDone ==> b.phase == Phase::AnnounceBuild
    &&& a.phase == Phase::AnnounceBuild ==> b.phase == Phase::Build
    &&& a.phase == Phase::BuildDone ==> b.phase == Phase::AnnouncePull
    &&& a.phase == Phase::PullDone ==> b.phase == Phase::Complete
    &&& a.phase == Phase::Settle ==> b.phase == Phase::MakeDir
    &&& a.phase == Phase::MakeDir ==> if succeeded(event) {
        &&& b.phase == (if a.incremental {
            Phase::ListIndexed
        } else {
            Phase::Push
        })
        &&& !b.use_manifest
        &&& !b.remove_manifest
        &&& b.failure is None
    } else {
        &&& b.phase == Phase::Finished
        &&& match (b.failure, event) {
            (Some(PipelineError::Setup { stderr: s }), Event::Exited { stderr, .. }) => s@
                == stderr@,
            (Some(PipelineError::SetupNotRun), Event::Exited { .. }) => false,
            (Some(PipelineError::SetupNotRun), _) => true,
            _ => false,
        }
    }
    &&& a.phase == Phase::ListIndexed ==> b.failure is None && if succeeded(
        event,
    ) {
        b.phase == Phase::ListUntracked && b.indexed == listing_of(
            event,
        )
    } else {
        b.phase == Phase::Push && !b.use_manifest
            && !b.remove_manifest
    }
    &&& a.phase == Phase::ListUntracked ==> {
        &&& b.failure is None
        &&& opt_views(b.manifest) == selection(
            true,
            a.indexed,
            listing_of(event),
        )
        &&& b.phase == (if b.manifest is Some {
            Phase::WriteManifest
        } else {
            Phase::Push
        })
        &&& !b.use_manifest
        &&& !b.remove_manifest
    }
    &&& a.phase == Phase::WriteManifest ==> {
        &&& b.phase == Phase::Push
        &&& b.use_manifest == (event == Event::Answer(true))
        &&& b.remove_manifest
    }
    &&& a.phase == Phase::Push ==> if succeeded(event) {
        &&& b.failure is None
        &&& b.phase == (if a.remove_manifest {
            Phase::Cleanup
        } else {
            after_sync(a.level)
        })
    } else {
        &&& b.failure == Some(push_error(event))
        &&& b.phase == (if a.remove_manifest {
            Phase::Cleanup
        } else {
            Phase::Finished
        })
    }
    &&& a.phase == Phase::Cleanup ==> b.failure == a.failure
        && b.phase == (if a.failure is Some {
        Phase::Finished
    } else {
        after_sync(a.level)
    })
    &&& a.phase == Phase::Build ==> if succeeded(event) {
        b.failure is None && b.phase == after_build(a.level)
    } else {
        b.phase == Phase::Finished && b.failure == Some(
            build_error(event),
        )
    }
    &&& a.phase == Phase::AnnouncePull ==> b.pulled == 0
        && b.warnings == 0 && b.phase == pull_from(
        a.level,
        0,
        a.config.artifacts@.len(),
    )
    &&& a.phase == Phase::Pull ==> {
        &&& b.failure is None
        &&& b.pull_ok == succeeded(event)
        &&& b.warnings == a.warnings + (if succeeded(event) {
            0int
        } else {
            1int
        })
        &&& b.pulled == a.pulled + (if succeeded(event) && a.level
            != OutputLevel::Verbose {
            1int
        } else {
            0int
        })
        &&& b.phase == (if succeeded(event) && a.level
            != OutputLevel::Verbose {
            pull_from(
                a.level,
                a.pulled as nat + 1,
                a.config.artifacts@.len(),
            )
        } else {
            Phase::PullReport
        })
    }
    &&& a.phase == Phase::PullReport ==> b.failure is None
        && b.warnings == a.warnings && b.pulled
        == a.pulled + 1 && b.phase == pull_from(
        a.level,
        a.pulled as nat + 1,
        a.config.artifacts@.len(),
    )
    &&& a.phase == Phase::Complete ==> b.phase == Phase::Finished
        && b.failure is None
}

/// The phase after a successful push: the normal tier confirms the sync.
pub open spec fn after_sync(level: OutputLevel) -> Phase {
    if level == OutputLevel::Normal {
        Phase::SyncDone
    } else {
        Phase::AnnounceBuild
    }
}

/// The phase after a successful build: the normal tier confirms it.
pub open spec fn after_build(level: OutputLevel) -> Phase {
    if level == OutputLevel::Normal {
        Phase::BuildDone
    } else {
        Phase::AnnouncePull
    }
}

/// The phase after the last artifact: the normal tier confirms the pulls.
pub open spec fn after_pulls(level: OutputLevel) -> Phase {
    if level == OutputLevel::Normal {
        Phase::PullDone
    } else {
        Phase::Complete
    }
}

/// The phase that pulls artifact `i`, or ends the pulls when there is none.
pub open spec fn pull_from(level: OutputLevel, i: nat, count: nat) -> Phase {
    if i < count {
        Phase::Pull
    } else {
        after_pulls(level)
    }
}

/// The error of a failed push.
pub open spec fn push_error(e: Event) -> PipelineError {
    match e {
        Event::Exited { code, .. } => PipelineError::Push { code },
        _ => PipelineError::PushNotRun,
    }
}

/// The error of a failed remote build.
pub open spec fn build_error(e: Event) -> PipelineError {
    match e {
        Event::Exited { code, .. } => PipelineError::Build { code },
        _ => PipelineError::BuildNotRun,
    }
}

/// The parts of a run that never change.
pub open spec fn same_run(a: Pipeline, b: Pipeline) -> bool {
    &&& a.config == b.config
    &&& a.artifact_count == b.artifact_count
    &&& a.session == b.session
    &&& a.level == b.level
    &&& a.project_dir == b.project_dir
    &&& a.manifest_path == b.manifest_path
    &&& a.incremental == b.incremental
}

impl Pipeline {
    fn set_pull_phase(&mut self)
        requires
            old(self).pulled <= old(self).config.artifacts@.len(),
            old(self).artifact_count == old(self).config.artifacts@.len(),
        ensures
            final(self).phase == pull_from(
                old(self).level,
                old(self).pulled as nat,
                old(self).config.artifacts@.len(),
            ),
            final(self).pulled == old(self).pulled,
            final(self).warnings == old(self).warnings,
            final(self).failure == old(self).failure,
            final(self).pull_ok == old(self).pull_ok,
            final(self).use_manifest == old(self).use_manifest,
            final(self).remove_manifest == old(self).remove_manifest,
            final(self).manifest == old(self).manifest,
            same_run(*old(self), *final(self)),
    {
        if self.pulled < self.artifact_count {
            self.phase = Phase::Pull;
        } else {
            self.phase = match self.level {
                OutputLevel::Normal => Phase::PullDone,
                _ => Phase::Complete,
            };
        }
    }

    /// The transitions of connection and setup.
    fn connect_step(&mut self, event: Event)
        requires
            old(self).wf(),
            old(self).phase == Phase::Header || old(self).phase == Phase::AnnounceSync || old(self).phase == Phase::CheckSocket || old(self).phase == Phase::Probe || old(self).phase == Phase::OpenMaster || old(self).phase == Phase::Settle || old(self).phase == Phase::MakeDir,
        ensures
            final(self).wf(),
            transition(*old(self), *final(self), event),
    {
        match self.phase {
            Phase::Header => {
                self.phase = Phase::AnnounceSync;
            },
            Phase::AnnounceSync => {
                self.phase = Phase::CheckSocket;
            },
            Phase::CheckSocket => {
                self.phase = match event {
                    Event::Answer(true) => Phase::Probe,
                    _ => Phase::OpenMaster,
                };
            },
            Phase::Probe => {
                self.phase = if exited_ok(&event) {
                    Phase::MakeDir
                } else {
                    Phase::OpenMaster
                };
            },
            Phase::OpenMaster => {
                self.phase = Phase::Settle;
            },
            Phase::Settle => {
                self.phase = Phase::MakeDir;
            },
            Phase::MakeDir => {
                match event {
                    Event::Exited { code, stderr, .. } => {
                        match run_ssh_command(code, stderr.as_str()) {
                            Ok(()) => {
                                self.use_manifest = false;
                                self.phase = if self.incremental {
                                    Phase::ListIndexed
                                } else {
                                    Phase::Push
                                };
                            },
                            Err(e) => {
                                self.failure = Some(e);
                                self.phase = Phase::Finished;
                            },
                        }
                    },
                    _ => {
                        self.failure = Some(PipelineError::SetupNotRun);
                        self.phase = Phase::Finished;
                    },
                }
            },
            _ => {},
        }
    }

    /// The transitions of file selection.
    fn select_step(&mut self, event: Event)
        requires
            old(self).wf(),
            old(self).phase == Phase::ListIndexed || old(self).phase == Phase::ListUntracked || old(self).phase == Phase::WriteManifest,
        ensures
            final(self).wf(),
            transition(*old(self), *final(self), event),
    {
        match self.phase {
            Phase::ListIndexed => {
                if exited_ok(&event) {
                    self.indexed = listing_from(event);
                    self.phase = Phase::ListUntracked;
                } else {
                    self.manifest = None;
                    self.use_manifest = false;
                    self.remove_manifest = false;
                    self.phase = Phase::Push;
                }
            },
            Phase::ListUntracked => {
                let untracked = listing_from(event);
                let chosen = select_manifest(true, &self.indexed, &untracked);
                self.phase = match chosen {
                    Some(_) => Phase::WriteManifest,
                    None => Phase::Push,
                };
                self.manifest = chosen;
                self.use_manifest = false;
            },
            Phase::WriteManifest => {
                self.use_manifest = match event {
                    Event::Answer(true) => true,
                    _ => false,
                };
                self.remove_manifest = true;
                self.phase = Phase::Push;
            },
            _ => {},
        }
    }

    /// The transitions of push and build.
    fn transfer_step(&mut self, event: Event)
        requires
            old(self).wf(),
            old(self).phase == Phase::Push || old(self).phase == Phase::Cleanup || old(self).phase == Phase::SyncDone || old(self).phase == Phase::AnnounceBuild || old(self).phase == Phase::Build || old(self).phase == Phase::BuildDone,
        ensures
            final(self).wf(),
            transition(*old(self), *final(self), event),
    {
        match self.phase {
            Phase::Push => {
                if !exited_ok(&event) {
                    self.failure = Some(
                        match event {
                            Event::Exited { code, .. } => PipelineError::Push { code },
                            _ => PipelineError::PushNotRun,
                        },
                    );
                }
                self.phase = if self.remove_manifest {
                    Phase::Cleanup
                } else if self.failure.is_some() {
                    Phase::Finished
                } else {
                    match self.level {
                        OutputLevel::Normal => Phase::SyncDone,
                        _ => Phase::AnnounceBuild,
                    }
                };
            },
            Phase::Cleanup => {
                self.phase = if self.failure.is_some() {
                    Phase::Finished
                } else {
                    match self.level {
                        OutputLevel::Normal => Phase::SyncDone,
                        _ => Phase::AnnounceBuild,
                    }
                };
            },
            Phase::SyncDone => {
                self.phase = Phase::AnnounceBuild;
            },
            Phase::AnnounceBuild => {
                self.phase = Phase::Build;
            },
            Phase::Build => {
                if exited_ok(&event) {
                    self.phase = match self.level {
                        OutputLevel::Normal => Phase::BuildDone,
                        _ => Phase::AnnouncePull,
                    };
                } else {
                    self.failure = Some(
                        match event {
                            Event::Exited { code, .. } => PipelineError::Build { code },
                            _ => PipelineError::BuildNotRun,
                        },
                    );
                    self.phase = Phase::Finished;
                }
            },
            Phase::BuildDone => {
                self.phase = Phase::AnnouncePull;
            },
            _ => {},
        }
    }

    /// The transitions of artifact pulls and completion.
    fn pull_step(&mut self, event: Event)
        requires
            old(self).wf(),
            old(self).phase == Phase::AnnouncePull || old(self).phase == Phase::Pull || old(self).phase == Phase::PullReport || old(self).phase == Phase::PullDone || old(self).phase == Phase::Complete,
        ensures
            final(self).wf(),
            transition(*old(self), *final(self), event),
    {
        match self.phase {
            Phase::AnnouncePull => {
                self.pulled = 0;
                self.warnings = 0;
                self.set_pull_phase();
            },
            Phase::Pull => {
                let ok = exited_ok(&event);
                self.pull_ok = ok;
                if !ok {
                    self.warnings = self.warnings + 1;
                }
                let quiet = match self.level {
                    OutputLevel::Verbose => false,
                    _ => true,
                };
                if ok && quiet {
                    self.pulled = self.pulled + 1;
                    self.set_pull_phase();
                } else {
                    self.phase = Phase::PullReport;
                }
            },
            Phase::PullReport => {
                self.pulled = self.pulled + 1;
                self.set_pull_phase();
            },
            Phase::PullDone => {
                self.phase = Phase::Complete;
            },
            Phase::Complete => {
                self.phase = Phase::Finished;
            },
            _ => {},
        }
    }

    /// Takes in what performing the current action gave, and moves on.
    pub fn advance(&mut self, event: Event)
        requires
            old(self).wf(),
        ensures
            final(self).wf(),
            transition(*old(self), *final(self), event),
    {
        match self.phase {
            Phase::Header | Phase::AnnounceSync | Phase::CheckSocket | Phase::Probe | Phase::OpenMaster | Phase::Settle | Phase::MakeDir => self.connect_step(event),
            Phase::ListIndexed | Phase::ListUntracked | Phase::WriteManifest => self.select_step(event),
            Phase::Push | Phase::Cleanup | Phase::SyncDone | Phase::AnnounceBuild | Phase::Build | Phase::BuildDone => self.transfer_step(event),
            Phase::AnnouncePull | Phase::Pull | Phase::PullReport | Phase::PullDone | Phase::Complete => self.pull_step(event),
            Phase::Finished => {},
        }
    }
}

} // verus!
