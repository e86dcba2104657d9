//! The external commands a run issues, as program, arguments and working
//! directory. Every transport command addresses the session's control socket.
use vstd::prelude::*;
use vstd::string::*;
use crate::session::{control_option, rsync_shell, ssh_control_path_arg, Session};
use crate::status::OutputLevel;
use crate::text::{concat2, concat3, owned, views};

verus! {

/// One process to start: what runs, with which arguments, where, and whether
/// its output is captured (otherwise it goes straight to the terminal).
pub struct CommandSpec {
    pub program: String,
    pub args: Vec<String>,
    pub dir: Option<String>,
    pub capture: bool,
}

/// The argument list of a command, as characters.
pub open spec fn args_of(c: CommandSpec) -> Seq<Seq<char>> {
    views(c.args@)
}

/// Characters that a POSIX shell word may hold without quoting.
pub open spec fn shell_safe(c: char) -> bool {
    ('a' <= c && c <= 'z') || ('A' <= c && c <= 'Z') || ('0' <= c && c <= '9') || c == '-' || c
        == '_' || c == '=' || c == '/' || c == ',' || c == '.' || c == '+'
}

/// One character inside single quotes: `'` and `!` close the quotes, are
/// written escaped, and reopen them.
pub open spec fn quoted_char(c: char) -> Seq<char> {
    if c == '\'' || c == '!' {
        seq!['\'', '\\', c, '\'']
    } else {
        seq![c]
    }
}

/// The characters of `s`, each as it stands inside single quotes.
pub open spec fn quoted_body(s: Seq<char>) -> Seq<char>
    decreases s.len(),
{
    if s.len() == 0 {
        Seq::empty()
    } else {
        quoted_body(s.drop_last()) + quoted_char(s.last())
    }
}

/// `s` as one POSIX shell word: unchanged when it is non-empty and every
/// character is safe, else single-quoted.
pub open spec fn shell_quoted(s: Seq<char>) -> Seq<char> {
    if s.len() > 0 && forall|i: int| 0 <= i < s.len() ==> shell_safe(#[trigger] s[i]) {
        s
    } else {
        seq!['\''] + quoted_body(s) + seq!['\'']
    }
}

/// Relies on `shell_escape::unix::escape`: quotes `s` for a POSIX shell as
/// `shell_quoted` states; it reads nothing but its argument.
#[verifier::external_body]
fn shell_escape_str(s: &str) -> (r: String)
    ensures
        r@ == shell_quoted(s@),
{
    shell_escape::unix::escape(std::borrow::Cow::Borrowed(s)).into_owned()
}

fn push_arg(v: &mut Vec<String>, s: String)
    ensures
        views(final(v)@) == views(old(v)@).push(s@),
{
    v.push(s);
    assert(views(v@) =~= views(old(v)@).push(s@));
}

/// ssh through the control socket `cp` to `host`, running `remote`.
pub open spec fn ssh_args(cp: Seq<char>, host: Seq<char>, remote: Seq<char>) -> Seq<Seq<char>> {
    seq!["-o"@, control_option(cp), host, remote]
}

/// The no-op command that tells whether the socket `cp` still holds a live session.
pub open spec fn probe_args(cp: Seq<char>, host: Seq<char>) -> Seq<Seq<char>> {
    seq![
        "-o"@,
        "ControlMaster=no"@,
        "-o"@,
        control_option(cp),
        "-o"@,
        "ConnectTimeout=2"@,
        host,
        "true"@,
    ]
}

/// The background master that opens the session behind socket `cp` and keeps
/// it for ten idle minutes.
pub open spec fn master_args(cp: Seq<char>, host: Seq<char>) -> Seq<Seq<char>> {
    seq![
        "-N"@,
        "-M"@,
        "-o"@,
        "ControlMaster=auto"@,
        "-o"@,
        "ControlPersist=10m"@,
        "-o"@,
        control_option(cp),
        host,
    ]
}

/// The remote shell line that creates the remote directory.
pub open spec fn mkdir_line(remote_path: Seq<char>) -> Seq<char> {
    "mkdir -p "@ + shell_quoted(remote_path)
}

/// The remote shell line that builds: enter the directory, and only then build.
pub open spec fn build_line(remote_path: Seq<char>, build_command: Seq<char>) -> Seq<char> {
    "cd "@ + remote_path + " && "@ + build_command
}

/// rsync's verbosity flag for a tier.
pub open spec fn verbosity_flag(level: OutputLevel) -> Seq<char> {
    match level {
        OutputLevel::Verbose => "-v"@,
        _ => "--quiet"@,
    }
}

/// The exclusions every push applies, before the configured ones.
pub open spec fn builtin_excludes() -> Seq<Seq<char>> {
    seq![
        "--exclude=.git"@,
        "--exclude=.gitignore"@,
        "--exclude=*.nds"@,
        "--exclude=*.elf"@,
        "--exclude=build/"@,
        "--exclude=.ninja_*"@,
        "--exclude=compile_commands.json"@,
    ]
}

/// One `--exclude=` argument per configured pattern, in order.
pub open spec fn exclude_args(patterns: Seq<Seq<char>>) -> Seq<Seq<char>> {
    patterns.map_values(|p: Seq<char>| "--exclude="@ + p)
}

/// The file-list argument, when a manifest file is used.
pub open spec fn manifest_args(manifest: Option<Seq<char>>) -> Seq<Seq<char>> {
    match manifest {
        Some(m) => seq!["--files-from="@ + m],
        None => Seq::empty(),
    }
}

/// `host:path`, as rsync names a remote location.
pub open spec fn remote_location(host: Seq<char>, path: Seq<char>) -> Seq<char> {
    host + ":"@ + path
}

/// The mirroring push of the project tree to the remote path.
pub open spec fn push_args(
    level: OutputLevel,
    cp: Seq<char>,
    host: Seq<char>,
    remote_path: Seq<char>,
    project_dir: Seq<char>,
    patterns: Seq<Seq<char>>,
    manifest: Option<Seq<char>>,
) -> Seq<Seq<char>> {
    seq!["-avz"@, verbosity_flag(level), "--delete"@, "-e"@, rsync_shell(cp)] + builtin_excludes()
        + exclude_args(patterns) + manifest_args(manifest) + seq![
        project_dir + "/"@,
        remote_location(host, remote_path + "/"@),
    ]
}

/// The copy of one artifact from the remote path into the working directory.
pub open spec fn pull_args(
    level: OutputLevel,
    cp: Seq<char>,
    host: Seq<char>,
    remote_path: Seq<char>,
    artifact: Seq<char>,
) -> Seq<Seq<char>> {
    seq![
        "-avz"@,
        verbosity_flag(level),
        "-e"@,
        rsync_shell(cp),
        remote_location(host, remote_path + "/"@ + artifact),
        "."@,
    ]
}

/// Whether a command addresses the control socket `cp`, as ssh or as rsync's remote shell.
pub open spec fn uses_socket(c: CommandSpec, cp: Seq<char>) -> bool {
    exists|i: int|
        0 <= i < c.args@.len() && (#[trigger] c.args@[i]@ == control_option(cp) || c.args@[i]@
            == rsync_shell(cp))
}

/// The `ControlPath=` option of a session.
fn control_arg(session: &Session) -> (r: String)
    ensures
        r@ == control_option(session.path_view()),
{
    concat2("ControlPath=", session.control_path())
}

/// ssh through the session, running the remote shell line `remote`.
pub fn ssh_command(session: &Session, remote: &str, capture: bool) -> (r: CommandSpec)
    ensures
        r.program@ == "ssh"@,
        args_of(r) == ssh_args(session.path_view(), session.host_view(), remote@),
        r.dir.is_none(),
        r.capture == capture,
        uses_socket(r, session.path_view()),
{
    let mut args: Vec<String> = Vec::new();
    push_arg(&mut args, owned("-o"));
    push_arg(&mut args, control_arg(session));
    push_arg(&mut args, owned(session.host()));
    push_arg(&mut args, owned(remote));
    let r = CommandSpec { program: owned("ssh"), args, dir: None, capture };
    assert(args_of(r) =~= ssh_args(session.path_view(), session.host_view(), remote@));
    assert(r.args@[1]@ == control_option(session.path_view()));
    r
}

/// The liveness probe of an existing control socket.
pub fn probe_command(session: &Session) -> (r: CommandSpec)
    ensures
        r.program@ == "ssh"@,
        args_of(r) == probe_args(session.path_view(), session.host_view()),
        r.dir.is_none(),
        r.capture,
        uses_socket(r, session.path_view()),
{
    let mut args: Vec<String> = Vec::new();
    push_arg(&mut args, owned("-o"));
    push_arg(&mut args, owned("ControlMaster=no"));
    push_arg(&mut args, owned("-o"));
    push_arg(&mut args, control_arg(session));
    push_arg(&mut args, owned("-o"));
    push_arg(&mut args, owned("ConnectTimeout=2"));
    push_arg(&mut args, owned(session.host()));
    push_arg(&mut args, owned("true"));
    let r = CommandSpec { program: owned("ssh"), args, dir: None, capture: true };
    assert(args_of(r) =~= probe_args(session.path_view(), session.host_view()));
    assert(r.args@[3]@ == control_option(session.path_view()));
    r
}

/// The background master that opens the session.
pub fn master_command(session: &Session) -> (r: CommandSpec)
    ensures
        r.program@ == "ssh"@,
        args_of(r) == master_args(session.path_view(), session.host_view()),
        r.dir.is_none(),
        !r.capture,
        uses_socket(r, session.path_view()),
{
    let mut args: Vec<String> = Vec::new();
    push_arg(&mut args, owned("-N"));
    push_arg(&mut args, owned("-M"));
    push_arg(&mut args, owned("-o"));
    push_arg(&mut args, owned("ControlMaster=auto"));
    push_arg(&mut args, owned("-o"));
    push_arg(&mut args, owned("ControlPersist=10m"));
    push_arg(&mut args, owned("-o"));
    push_arg(&mut args, control_arg(session));
    push_arg(&mut args, owned(session.host()));
    let r = CommandSpec { program: owned("ssh"), args, dir: None, capture: false };
    assert(args_of(r) =~= master_args(session.path_view(), session.host_view()));
    assert(r.args@[7]@ == control_option(session.path_view()));
    r
}

/// Creates the remote directory, its path quoted for the remote shell.
pub fn mkdir_command(session: &Session, remote_path: &str) -> (r: CommandSpec)
    ensures
        r.program@ == "ssh"@,
        args_of(r) == ssh_args(session.path_view(), session.host_view(), mkdir_line(remote_path@)),
        r.dir.is_none(),
        r.capture,
        uses_socket(r, session.path_view()),
{
    let quoted = shell_escape_str(remote_path);
    let line = concat2("mkdir -p ", quoted.as_str());
    ssh_command(session, line.as_str(), true)
}

/// The remote shell line `cd <remote_path> && <build_command>`; the path is
/// not quoted, so home-relative notation reaches the remote shell.
pub fn remote_build_line(remote_path: &str, build_command: &str) -> (r: String)
    ensures
        r@ == build_line(remote_path@, build_command@),
{
    let mut r = concat3("cd ", remote_path, " && ");
    r.append(build_command);
    r
}

/// Runs the build on the remote host, its output going to the terminal.
pub fn remote_build_command(session: &Session, remote_path: &str, command: &str) -> (r: CommandSpec)
    ensures
        r.program@ == "ssh"@,
        args_of(r) == ssh_args(
            session.path_view(),
            session.host_view(),
            build_line(remote_path@, command@),
        ),
        r.dir.is_none(),
        !r.capture,
        uses_socket(r, session.path_view()),
{
    let line = remote_build_line(remote_path, command);
    ssh_command(session, line.as_str(), false)
}

fn verbosity_arg(level: OutputLevel) -> (r: String)
    ensures
        r@ == verbosity_flag(level),
{
    match level {
        OutputLevel::Verbose => owned("-v"),
        _ => owned("--quiet"),
    }
}

/// The mirroring push: deletions propagate, built-in exclusions and then the
/// configured ones apply, the manifest (when given) restricts the file set.
pub fn push_command(
    session: &Session,
    level: OutputLevel,
    remote_path: &str,
    project_dir: &str,
    patterns: &Vec<String>,
    manifest: Option<&str>,
) -> (r: CommandSpec)
    ensures
        r.program@ == "rsync"@,
        args_of(r) == push_args(
            level,
            session.path_view(),
            session.host_view(),
            remote_path@,
            project_dir@,
            views(patterns@),
            match manifest {
                Some(m) => Some(m@),
                None => None,
            },
        ),
        r.dir.is_none(),
        !r.capture,
        uses_socket(r, session.path_view()),
{
    let mut args: Vec<String> = Vec::new();
    push_arg(&mut args, owned("-avz"));
    push_arg(&mut args, verbosity_arg(level));
    push_arg(&mut args, owned("--delete"));
    push_arg(&mut args, owned("-e"));
    push_arg(&mut args, ssh_control_path_arg(session));
    push_arg(&mut args, owned("--exclude=.git"));
    push_arg(&mut args, owned("--exclude=.gitignore"));
    push_arg(&mut args, owned("--exclude=*.nds"));
    push_arg(&mut args, owned("--exclude=*.elf"));
    push_arg(&mut args, owned("--exclude=build/"));
    push_arg(&mut args, owned("--exclude=.ninja_*"));
    push_arg(&mut args, owned("--exclude=compile_commands.json"));
    let ghost head = views(args@);
    assert(head =~= seq![
        "-avz"@,
        verbosity_flag(level),
        "--delete"@,
        "-e"@,
        rsync_shell(session.path_view()),
    ] + builtin_excludes());
    let mut i: usize = 0;
    while i < patterns.len()
        invariant
            i <= patterns.len(),
            views(args@) == head + exclude_args(views(patterns@).subrange(0, i as int)),
        decreases patterns.len() - i,
    {
        push_arg(&mut args, concat2("--exclude=", patterns[i].as_str()));
        assert(exclude_args(views(patterns@).subrange(0, i as int + 1)) =~= exclude_args(
            views(patterns@).subrange(0, i as int),
        ).push("--exclude="@ + patterns@[i as int]@));
        i = i + 1;
    }
    assert(views(patterns@).subrange(0, patterns.len() as int) =~= views(patterns@));
    let ghost mid = views(args@);
    let ghost mv: Option<Seq<char>> = match manifest {
        Some(m) => Some(m@),
        None => None,
    };
    match manifest {
        Some(m) => {
            push_arg(&mut args, concat2("--files-from=", m));
        },
        None => {},
    }
    assert(views(args@) =~= mid + manifest_args(mv));
    push_arg(&mut args, concat2(project_dir, "/"));
    let dest = concat2(remote_path, "/");
    push_arg(&mut args, concat3(session.host(), ":", dest.as_str()));
    let r = CommandSpec { program: owned("rsync"), args, dir: None, capture: false };
    assert(args_of(r) =~= push_args(
        level,
        session.path_view(),
        session.host_view(),
        remote_path@,
        project_dir@,
        views(patterns@),
        mv,
    ));
    assert(views(args@)[4] == head[4]);
    assert(r.args@[4]@ == rsync_shell(session.path_view()));
    r
}

/// Copies one artifact from the remote path into the working directory.
pub fn pull_command(session: &Session, level: OutputLevel, remote_path: &str, artifact: &str) -> (r:
    CommandSpec)
    ensures
        r.program@ == "rsync"@,
        args_of(r) == pull_args(
            level,
            session.path_view(),
            session.host_view(),
            remote_path@,
            artifact@,
        ),
        r.dir.is_none(),
        !r.capture,
        uses_socket(r, session.path_view()),
{
    let mut args: Vec<String> = Vec::new();
    push_arg(&mut args, owned("-avz"));
    push_arg(&mut args, verbosity_arg(level));
    push_arg(&mut args, owned("-e"));
    push_arg(&mut args, ssh_control_path_arg(session));
    let src = concat3(remote_path, "/", artifact);
    push_arg(&mut args, concat3(session.host(), ":", src.as_str()));
    push_arg(&mut args, owned("."));
    let r = CommandSpec { program: owned("rsync"), args, dir: None, capture: false };
    assert(args_of(r) =~= pull_args(
        level,
        session.path_view(),
        session.host_view(),
        remote_path@,
        artifact@,
    ));
    assert(r.args@[3]@ == rsync_shell(session.path_view()));
    r
}

/// Whether a command runs in directory `d`.
pub open spec fn runs_in(c: CommandSpec, d: Seq<char>) -> bool {
    match c.dir {
        Some(x) => x@ == d,
        None => false,
    }
}

/// Lists the paths version control tracks in the project.
pub fn tracked_files_command(project_dir: &str) -> (r: CommandSpec)
    ensures
        r.program@ == "git"@,
        args_of(r) == seq!["ls-files"@],
        runs_in(r, project_dir@),
        r.capture,
{
    let mut args: Vec<String> = Vec::new();
    push_arg(&mut args, owned("ls-files"));
    let r = CommandSpec { program: owned("git"), args, dir: Some(owned(project_dir)), capture: true };
    assert(args_of(r) =~= seq!["ls-files"@]);
    r
}

/// Lists the untracked paths of the project that are not ignored.
pub fn untracked_files_command(project_dir: &str) -> (r: CommandSpec)
    ensures
        r.program@ == "git"@,
        args_of(r) == seq!["ls-files"@, "--others"@, "--exclude-standard"@],
        runs_in(r, project_dir@),
        r.capture,
{
    let mut args: Vec<String> = Vec::new();
    push_arg(&mut args, owned("ls-files"));
    push_arg(&mut args, owned("--others"));
    push_arg(&mut args, owned("--exclude-standard"));
    let r = CommandSpec { program: owned("git"), args, dir: Some(owned(project_dir)), capture: true };
    assert(args_of(r) =~= seq!["ls-files"@, "--others"@, "--exclude-standard"@]);
    r
}

} // verus!
