//! Properties that hold across the pipeline's functions.
use vstd::prelude::*;
use crate::commands::{args_of, push_args, uses_socket};
use crate::pipeline::{
    build_error, expected_action, runs, same_run, succeeded, through_session, transition,
    warning_text, Action, Event, Phase, Pipeline,
};
use crate::select::{selection, Listing};
use crate::session::{control_option, rsync_shell};
use crate::status::{level_of, OutputLevel};

verus! {

proof fn witness_socket(c: crate::commands::CommandSpec, cp: Seq<char>, i: int)
    requires
        0 <= i < args_of(c).len(),
        args_of(c)[i] == control_option(cp) || args_of(c)[i] == rsync_shell(cp),
    ensures
        uses_socket(c, cp),
{
    assert(c.args@[i]@ == args_of(c)[i]);
}

/// The action a phase asks for goes through the run's control socket.
pub proof fn expected_actions_use_session(p: Pipeline, a: Action)
    requires
        p.wf(),
        expected_action(p, a),
    ensures
        through_session(a, p.session.path_view()),
{
    let cp = p.session.path_view();
    match a {
        Action::Run { command } => {
            match p.phase {
                Phase::Probe => witness_socket(command, cp, 3),
                Phase::MakeDir => witness_socket(command, cp, 1),
                Phase::Build => witness_socket(command, cp, 1),
                Phase::Push => witness_socket(command, cp, 4),
                Phase::Pull => witness_socket(command, cp, 3),
                _ => {},
            }
        },
        Action::Spawn { command } => witness_socket(command, cp, 7),
        _ => {},
    }
}

/// Single session: any two transport actions of one run, whatever phases they
/// come from, address the same control socket, the one of the run's host.
pub proof fn one_socket_per_run(p: Pipeline, q: Pipeline, a: Action, b: Action)
    requires
        p.wf(),
        q.wf(),
        same_run(p, q),
        expected_action(p, a),
        expected_action(q, b),
    ensures
        through_session(a, p.session.path_view()),
        through_session(b, p.session.path_view()),
{
    expected_actions_use_session(p, a);
    expected_actions_use_session(q, b);
}

/// With version-control awareness off, or a full sync forced, no manifest is
/// ever selected, whatever the listings say.
pub proof fn full_sync_selects_no_manifest(
    git_aware: bool,
    force_full_sync: bool,
    indexed: Listing,
    untracked: Listing,
)
    requires
        !git_aware || force_full_sync,
    ensures
        selection(git_aware && !force_full_sync, indexed, untracked) is None,
{
}

/// A listing query that fails or cannot run makes the selection fall back to
/// the whole tree, never to part of a list.
pub proof fn failed_query_falls_back(incremental: bool, indexed: Listing, untracked: Listing)
    requires
        !(indexed is Listed) || untracked is Unavailable,
    ensures
        selection(incremental, indexed, untracked) is None,
{
}

/// Every push mirrors: deletions on the local side reach the remote tree,
/// so running it again on an unchanged tree leaves the remote tree as it was.
pub proof fn push_mirrors(
    level: OutputLevel,
    cp: Seq<char>,
    host: Seq<char>,
    remote_path: Seq<char>,
    project_dir: Seq<char>,
    patterns: Seq<Seq<char>>,
    manifest: Option<Seq<char>>,
)
    ensures
        push_args(level, cp, host, remote_path, project_dir, patterns, manifest)[2] == "--delete"@,
        push_args(level, cp, host, remote_path, project_dir, patterns, manifest)[4] == rsync_shell(
            cp,
        ),
{
}

/// A tier name that is none of the known ones selects the minimal tier.
pub proof fn unknown_tier_is_minimal(name: Seq<char>)
    requires
        name != "verbose"@,
        name != "v"@,
        name != "normal"@,
        name != "n"@,
    ensures
        level_of(name) == OutputLevel::Minimal,
{
}

/// The push that follows a full-tree decision, as the pipeline asks for it:
/// the mirroring rsync with no file list.
pub open spec fn whole_tree_push(p: Pipeline, a: Action) -> bool {
    runs(
        a,
        "rsync"@,
        push_args(
            p.level,
            p.session.path_view(),
            p.session.host_view(),
            p.config.remote_path@,
            p.project_dir@,
            crate::text::views(p.config.exclude_patterns@),
            None,
        ),
        false,
        None,
    )
}

/// With incremental selection off, a successful directory setup leads
/// straight to a push of the whole tree: no listing, no manifest.
pub proof fn full_sync_pushes_whole_tree(a: Pipeline, b: Pipeline, e: Event, push: Action)
    requires
        a.wf(),
        b.wf(),
        !a.incremental,
        a.phase == Phase::MakeDir,
        succeeded(e),
        transition(a, b, e),
        expected_action(b, push),
    ensures
        b.phase == Phase::Push,
        b.failure is None,
        whole_tree_push(b, push),
{
}

/// A listing of indexed paths that fails or cannot run is no error: the run
/// goes on with a push of the whole tree.
pub proof fn failed_listing_pushes_whole_tree(a: Pipeline, b: Pipeline, e: Event, push: Action)
    requires
        a.wf(),
        b.wf(),
        a.phase == Phase::ListIndexed,
        !succeeded(e),
        transition(a, b, e),
        expected_action(b, push),
    ensures
        b.phase == Phase::Push,
        b.failure is None,
        whole_tree_push(b, push),
{
}

/// An artifact that cannot be copied costs one warning, which names that
/// artifact on stderr; the run stays successful and moves to the next artifact.
pub proof fn failed_pull_only_warns(
    a: Pipeline,
    b: Pipeline,
    c: Pipeline,
    e1: Event,
    e2: Event,
    report: Action,
)
    requires
        a.wf(),
        b.wf(),
        c.wf(),
        a.phase == Phase::Pull,
        a.failure is None,
        !succeeded(e1),
        transition(a, b, e1),
        expected_action(b, report),
        transition(b, c, e2),
    ensures
        b.failure is None,
        b.warnings == a.warnings + 1,
        match report {
            Action::Print { text, to_stderr } => to_stderr && text@ == warning_text(
                a.config.artifacts@[a.pulled as int]@,
            ),
            _ => false,
        },
        c.failure is None,
        c.warnings == a.warnings + 1,
        c.pulled == a.pulled + 1,
{
}

/// A copied artifact adds no warning and leaves the run successful.
pub proof fn good_pull_adds_no_warning(a: Pipeline, b: Pipeline, e: Event)
    requires
        a.wf(),
        a.phase == Phase::Pull,
        a.failure is None,
        succeeded(e),
        transition(a, b, e),
    ensures
        b.failure is None,
        b.warnings == a.warnings,
{
}

/// A failed remote build ends the run with the build's exit status, and no
/// later step leaves the finished state: nothing is pulled.
pub proof fn failed_build_ends_run(a: Pipeline, b: Pipeline, c: Pipeline, e1: Event, e2: Event)
    requires
        a.wf(),
        a.phase == Phase::Build,
        !succeeded(e1),
        transition(a, b, e1),
        transition(b, c, e2),
    ensures
        b.phase == Phase::Finished,
        b.failure == Some(build_error(e1)),
        c.phase == Phase::Finished,
        c.failure == b.failure,
{
}

/// Two runs that differ only in the tier's name ask for the same action when
/// the names select the same tier: an unknown name runs exactly like "minimal".
pub proof fn tier_name_only_matters_through_tier(p: Pipeline, q: Pipeline, a: Action)
    requires
        p.level == q.level,
        p.phase == q.phase,
        p.session == q.session,
        p.project_dir == q.project_dir,
        p.manifest_path == q.manifest_path,
        p.config.host == q.config.host,
        p.config.remote_path == q.config.remote_path,
        p.config.build_command == q.config.build_command,
        p.config.artifacts == q.config.artifacts,
        p.config.exclude_patterns == q.config.exclude_patterns,
        p.manifest == q.manifest,
        p.use_manifest == q.use_manifest,
        p.pulled == q.pulled,
        p.pull_ok == q.pull_ok,
        p.warnings == q.warnings,
        p.failure == q.failure,
    ensures
        expected_action(p, a) == expected_action(q, a),
{
}

} // verus!
