use remotebuild::commands::CommandSpec;
use remotebuild::config::Config;
use remotebuild::pipeline::{Action, Event, Pipeline, PipelineError};
use remotebuild::session::Session;

fn config(output: &str, git_aware: bool, artifacts: &[&str]) -> Config {
    Config {
        host: "ci@build1".to_string(),
        remote_path: "~/cache".to_string(),
        build_command: "make -j4".to_string(),
        artifacts: artifacts.iter().map(|s| s.to_string()).collect(),
        exclude_patterns: vec![],
        git_aware,
        output: output.to_string(),
    }
}

fn ok(lines: &[&str]) -> Event {
    Event::Exited {
        code: Some(0),
        lines: lines.iter().map(|s| s.to_string()).collect(),
        stderr: String::new(),
    }
}

fn exit(code: i32, stderr: &str) -> Event {
    Event::Exited { code: Some(code), lines: vec![], stderr: stderr.to_string() }
}

/// Everything a run did, in order.
struct Trace {
    actions: Vec<Action>,
    result: Result<usize, PipelineError>,
}

fn argv(c: &CommandSpec) -> Vec<String> {
    let mut v = vec![c.program.clone()];
    v.extend(c.args.iter().cloned());
    v
}

fn drive(mut p: Pipeline, mut answer: impl FnMut(&Action) -> Event) -> Trace {
    let mut actions = Vec::new();
    for _ in 0..200 {
        let a = p.action();
        if let Action::Finish { result } = a {
            return Trace { actions, result };
        }
        let e = answer(&a);
        actions.push(a);
        p.advance(e);
    }
    panic!("pipeline did not finish");
}

fn runs(t: &Trace) -> Vec<Vec<String>> {
    t.actions
        .iter()
        .filter_map(|a| match a {
            Action::Run { command } | Action::Spawn { command } => Some(argv(command)),
            _ => None,
        })
        .collect()
}

fn stderr_text(t: &Trace) -> Vec<String> {
    t.actions
        .iter()
        .filter_map(|a| match a {
            Action::Print { text, to_stderr: true } => Some(text.clone()),
            _ => None,
        })
        .collect()
}

fn new_run(cfg: Config, force: bool) -> Pipeline {
    let session = Session::new("/home/u/.cache/remotebuild", &cfg.host);
    Pipeline::new(cfg, session, "/work/proj", "/home/u/.cache/remotebuild_42", force)
}

/// Answers as a healthy remote with a repository of three indexed files and
/// one untracked one would; the build exits with `build_code`, and artifacts
/// named in `missing` cannot be copied.
fn healthy(build_code: i32, missing: &'static [&'static str]) -> impl FnMut(&Action) -> Event {
    move |a: &Action| match a {
        Action::CheckExists { .. } => Event::Answer(false),
        Action::Spawn { .. } => Event::Answer(true),
        Action::WriteFile { .. } => Event::Answer(true),
        Action::Run { command } => {
            let args = &command.args;
            if command.program == "git" && args.len() == 1 {
                ok(&["src/main.c", "Makefile", "README"])
            } else if command.program == "git" {
                ok(&["notes.txt", ""])
            } else if command.program == "ssh" && args[3].starts_with("cd ") {
                exit(build_code, "")
            } else if command.program == "rsync" && args.last().map(|s| s == ".").unwrap_or(false) {
                let src = &args[args.len() - 2];
                if missing.iter().any(|m| src.ends_with(m)) {
                    exit(23, "")
                } else {
                    ok(&[])
                }
            } else {
                ok(&[])
            }
        }
        _ => Event::Done,
    }
}

const SOCKET: &str = "ControlPath=/home/u/.cache/remotebuild/control_ci_build1";

#[test]
fn scenario_full_run_succeeds() {
    let t = drive(new_run(config("", true, &["out/app.bin"]), false), healthy(0, &[]));
    assert!(matches!(t.result, Ok(0)));
    let manifest = t.actions.iter().find_map(|a| match a {
        Action::WriteFile { path, contents } => Some((path.clone(), contents.clone())),
        _ => None,
    });
    let (path, contents) = manifest.expect("a manifest is written");
    assert_eq!(path, "/home/u/.cache/remotebuild_42");
    assert_eq!(contents, "src/main.c\nMakefile\nREADME\nnotes.txt");
    assert_eq!(contents.split('\n').count(), 4);
    let cmds = runs(&t);
    let push = cmds.iter().find(|c| c[0] == "rsync" && c.contains(&"--delete".to_string())).unwrap();
    assert!(push.contains(&"--files-from=/home/u/.cache/remotebuild_42".to_string()));
    assert_eq!(push[push.len() - 2], "/work/proj/");
    assert_eq!(push[push.len() - 1], "ci@build1:~/cache/");
    let build = cmds.iter().find(|c| c[0] == "ssh" && c.len() == 5 && c[4].starts_with("cd ")).unwrap();
    assert_eq!(build[4], "cd ~/cache && make -j4");
    let pull = cmds.last().unwrap();
    assert_eq!(pull[pull.len() - 2], "ci@build1:~/cache/out/app.bin");
    assert_eq!(pull[pull.len() - 1], ".");
    assert!(t.actions.iter().any(|a| matches!(a, Action::RemoveFile { path } if path == "/home/u/.cache/remotebuild_42")));
}

#[test]
fn scenario_build_failure_aborts_without_pull() {
    let t = drive(new_run(config("", true, &["out/app.bin"]), false), healthy(2, &[]));
    assert!(matches!(t.result, Err(PipelineError::Build { code: Some(2) })));
    let cmds = runs(&t);
    assert!(cmds.last().unwrap()[4] == "cd ~/cache && make -j4");
    assert!(!cmds.iter().any(|c| c.last().map(|s| s == ".").unwrap_or(false)));
}

#[test]
fn every_transport_command_uses_one_socket() {
    let t = drive(new_run(config("verbose", true, &["a", "b"]), false), healthy(0, &[]));
    let mut transport = 0;
    for c in runs(&t) {
        if c[0] == "git" {
            continue;
        }
        transport += 1;
        let via = c.iter().any(|a| a == SOCKET || *a == format!("ssh -o {}", SOCKET));
        assert!(via, "{:?}", c);
    }
    assert!(transport >= 5);
    assert!(t.actions.iter().any(|a| matches!(a, Action::CheckExists { path } if path == "/home/u/.cache/remotebuild/control_ci_build1")));
}

#[test]
fn partial_pull_failure_still_succeeds() {
    let t = drive(new_run(config("normal", true, &["out/one.bin", "out/two.bin"]), false), healthy(0, &["out/two.bin"]));
    assert!(matches!(t.result, Ok(1)));
    let warnings = stderr_text(&t);
    assert_eq!(warnings, vec!["   ⚠ Warning: Could not copy artifact: out/two.bin\n".to_string()]);
    let pulls: Vec<_> = runs(&t).into_iter().filter(|c| c.last().map(|s| s == ".").unwrap_or(false)).collect();
    assert_eq!(pulls.len(), 2);
}

#[test]
fn full_sync_forced_lists_nothing() {
    let t = drive(new_run(config("", true, &[]), true), healthy(0, &[]));
    assert!(matches!(t.result, Ok(0)));
    assert!(!runs(&t).iter().any(|c| c[0] == "git"));
    assert!(!t.actions.iter().any(|a| matches!(a, Action::WriteFile { .. } | Action::RemoveFile { .. })));
    assert!(!runs(&t).iter().any(|c| c.iter().any(|a| a.starts_with("--files-from="))));
}

#[test]
fn git_unaware_config_lists_nothing() {
    let t = drive(new_run(config("", false, &[]), false), healthy(0, &[]));
    assert!(matches!(t.result, Ok(0)));
    assert!(!runs(&t).iter().any(|c| c[0] == "git"));
}

#[test]
fn not_a_repository_falls_back_to_full_tree() {
    let t = drive(new_run(config("", true, &[]), false), |a: &Action| match a {
        Action::Run { command } if command.program == "git" => exit(128, "fatal: not a git repository"),
        Action::CheckExists { .. } => Event::Answer(false),
        Action::Spawn { .. } => Event::Answer(true),
        Action::Run { .. } => ok(&[]),
        _ => Event::Done,
    });
    assert!(matches!(t.result, Ok(0)));
    assert_eq!(runs(&t).iter().filter(|c| c[0] == "git").count(), 1);
    assert!(!t.actions.iter().any(|a| matches!(a, Action::WriteFile { .. })));
}

#[test]
fn git_missing_falls_back_to_full_tree() {
    let t = drive(new_run(config("", true, &[]), false), |a: &Action| match a {
        Action::Run { command } if command.program == "git" => Event::NotStarted,
        Action::Run { .. } => ok(&[]),
        Action::CheckExists { .. } | Action::Spawn { .. } => Event::Answer(true),
        _ => Event::Done,
    });
    assert!(matches!(t.result, Ok(0)));
    assert!(!runs(&t).iter().any(|c| c.iter().any(|a| a.starts_with("--files-from="))));
}

#[test]
fn empty_repository_falls_back_to_full_tree() {
    let t = drive(new_run(config("", true, &[]), false), |a: &Action| match a {
        Action::Run { .. } => ok(&[]),
        Action::CheckExists { .. } | Action::Spawn { .. } => Event::Answer(false),
        _ => Event::Done,
    });
    assert!(matches!(t.result, Ok(0)));
    assert_eq!(runs(&t).iter().filter(|c| c[0] == "git").count(), 2);
    assert!(!t.actions.iter().any(|a| matches!(a, Action::WriteFile { .. })));
}

#[test]
fn failed_manifest_write_pushes_whole_tree_and_cleans_up() {
    let mut inner = healthy(0, &[]);
    let t = drive(new_run(config("", true, &[]), false), move |a: &Action| match a {
        Action::WriteFile { .. } => Event::Answer(false),
        other => inner(other),
    });
    assert!(matches!(t.result, Ok(0)));
    assert!(!runs(&t).iter().any(|c| c.iter().any(|a| a.starts_with("--files-from="))));
    assert!(t.actions.iter().any(|a| matches!(a, Action::RemoveFile { .. })));
}

#[test]
fn push_failure_is_fatal_and_cleans_up() {
    let t = drive(new_run(config("", true, &["x"]), false), |a: &Action| match a {
        Action::Run { command } if command.program == "rsync" => exit(12, ""),
        Action::Run { command } if command.program == "git" => ok(&["a"]),
        Action::Run { .. } => ok(&[]),
        Action::WriteFile { .. } => Event::Answer(true),
        _ => Event::Answer(false),
    });
    assert!(matches!(t.result, Err(PipelineError::Push { code: Some(12) })));
    assert!(matches!(t.actions.last(), Some(Action::RemoveFile { .. })));
    assert!(!runs(&t).iter().any(|c| c[0] == "ssh" && c.len() == 5 && c[4].starts_with("cd ")));
}

#[test]
fn push_not_started_is_fatal() {
    let t = drive(new_run(config("", false, &[]), false), |a: &Action| match a {
        Action::Run { command } if command.program == "rsync" => Event::NotStarted,
        Action::Run { .. } => ok(&[]),
        _ => Event::Answer(false),
    });
    assert!(matches!(t.result, Err(PipelineError::PushNotRun)));
}

#[test]
fn remote_directory_failure_carries_stderr() {
    let t = drive(new_run(config("", true, &[]), false), |a: &Action| match a {
        Action::Run { command } if command.program == "ssh" => exit(1, "Permission denied"),
        _ => Event::Answer(false),
    });
    match &t.result {
        Err(PipelineError::Setup { stderr }) => assert_eq!(stderr, "Permission denied"),
        _ => panic!("expected a setup failure"),
    }
    assert!(!runs(&t).iter().any(|c| c[0] == "rsync"));
}

#[test]
fn live_socket_is_reused() {
    let t = drive(new_run(config("", false, &[]), false), |a: &Action| match a {
        Action::CheckExists { .. } => Event::Answer(true),
        Action::Run { .. } => ok(&[]),
        _ => Event::Done,
    });
    assert!(matches!(t.result, Ok(0)));
    assert!(!t.actions.iter().any(|a| matches!(a, Action::Spawn { .. } | Action::Pause { .. })));
    let probe = &runs(&t)[0];
    assert_eq!(probe[2], "ControlMaster=no");
    assert_eq!(probe[8], "true");
}

#[test]
fn dead_socket_starts_master_and_waits() {
    let t = drive(new_run(config("", false, &[]), false), |a: &Action| match a {
        Action::CheckExists { .. } => Event::Answer(true),
        Action::Run { command } if command.args.last().map(|s| s == "true").unwrap_or(false) => exit(255, ""),
        Action::Run { .. } => ok(&[]),
        Action::Spawn { .. } => Event::Answer(false),
        _ => Event::Done,
    });
    assert!(matches!(t.result, Ok(0)));
    let master = runs(&t)[1].clone();
    assert_eq!(master[1..3], ["-N".to_string(), "-M".to_string()]);
    assert!(master.contains(&"ControlPersist=10m".to_string()));
    assert!(t.actions.iter().any(|a| matches!(a, Action::Pause { millis: 100 })));
}

#[test]
fn minimal_run_output() {
    let t = drive(new_run(config("MINIMAL", false, &[]), false), healthy(0, &[]));
    let printed: String = t.actions.iter().filter_map(|a| match a {
        Action::Print { text, to_stderr: false } => Some(text.clone()),
        _ => None,
    }).collect();
    let blank = format!("\r{}\r", " ".repeat(80));
    let expected = format!(
        "🚀 Remote Build: ci@build1 \r📦 Syncing files... {b}\r🔨 Building... {b}\r📥 Copying artifacts... \r✅ Build complete!\n",
        b = blank
    );
    assert_eq!(printed, expected);
}

#[test]
fn normal_run_output() {
    let t = drive(new_run(config("normal", false, &["a"]), false), healthy(0, &[]));
    let printed: String = t.actions.iter().filter_map(|a| match a {
        Action::Print { text, to_stderr: false } => Some(text.clone()),
        _ => None,
    }).collect();
    let expected = "🚀 Remote Build Proxy\n   Host: ci@build1\n   Project: /work/proj\n\n📦 Syncing files...\n   ✓ Sync complete\n\n🔨 Building...\n\n   ✓ Build complete\n\n📥 Copying artifacts...\n   ✓ Artifacts downloaded\n\n\n✅ Build complete!\n";
    assert_eq!(printed, expected);
}

#[test]
fn verbose_run_reports_each_copy() {
    let t = drive(new_run(config("v", false, &["a"]), false), healthy(0, &[]));
    assert!(t.actions.iter().any(|a| matches!(a, Action::Print { text, to_stderr: false } if text == "   ✓ Copied: a\n")));
    let cmds = runs(&t);
    assert!(cmds.iter().filter(|c| c[0] == "rsync").all(|c| c[2] == "-v"));
}

#[test]
fn unknown_tier_runs_like_minimal() {
    let a = drive(new_run(config("loud", true, &["a", "b"]), false), healthy(0, &["b"]));
    let b = drive(new_run(config("minimal", true, &["a", "b"]), false), healthy(0, &["b"]));
    let show = |t: &Trace| -> Vec<String> {
        t.actions.iter().map(|a| match a {
            Action::Print { text, to_stderr } => format!("print {} {}", to_stderr, text),
            Action::Run { command } => format!("run {:?}", argv(command)),
            Action::Spawn { command } => format!("spawn {:?}", argv(command)),
            Action::CheckExists { path } => format!("exists {}", path),
            Action::Pause { millis } => format!("pause {}", millis),
            Action::WriteFile { path, contents } => format!("write {} {}", path, contents),
            Action::RemoveFile { path } => format!("remove {}", path),
            Action::Finish { .. } => "finish".to_string(),
        }).collect()
    };
    assert_eq!(show(&a), show(&b));
    assert!(matches!(a.result, Ok(1)));
}

#[test]
fn repeated_runs_issue_identical_commands() {
    let a = drive(new_run(config("", true, &["out/app.bin"]), false), healthy(0, &[]));
    let b = drive(new_run(config("", true, &["out/app.bin"]), false), healthy(0, &[]));
    assert_eq!(runs(&a), runs(&b));
}
