use remotebuild::commands::{mkdir_command, pull_command, push_command, remote_build_line};
use remotebuild::config::{default_remote_path, default_true, Config};
use remotebuild::pipeline::{run_ssh_command, PipelineError};
use remotebuild::select::{select_manifest, Listing};
use remotebuild::session::{join_path, sanitize_host, ssh_control_path, ssh_control_path_arg, Session};
use remotebuild::status::{level_from_name, render_clear, render_status, OutputLevel};
use remotebuild::text::{join_lines, str_eq};

fn strings(v: &[&str]) -> Vec<String> {
    v.iter().map(|s| s.to_string()).collect()
}

fn cfg(output: &str) -> Config {
    Config {
        host: "h".to_string(),
        remote_path: default_remote_path(),
        build_command: "make".to_string(),
        artifacts: vec![],
        exclude_patterns: vec![],
        git_aware: default_true(),
        output: output.to_string(),
    }
}

#[test]
fn host_names_are_made_file_safe() {
    assert_eq!(sanitize_host("user@build-01.example.com:22"), "user_build-01.example.com_22");
    assert_eq!(sanitize_host(""), "");
    assert_eq!(sanitize_host("a b/c"), "a_b_c");
}

#[test]
fn control_path_lies_under_the_socket_directory() {
    assert_eq!(ssh_control_path("/c/remotebuild", "ci@build1"), "/c/remotebuild/control_ci_build1");
    assert_eq!(ssh_control_path("/c/remotebuild/", "h"), "/c/remotebuild/control_h");
    assert_eq!(join_path("", "x"), "x");
}

#[test]
fn same_host_same_socket() {
    let a = Session::new("/c", "ci@build1");
    let b = Session::new("/c", "ci@build1");
    assert_eq!(a.control_path(), b.control_path());
    assert_eq!(a.host(), "ci@build1");
    assert_eq!(ssh_control_path_arg(&a), "ssh -o ControlPath=/c/control_ci_build1");
}

#[test]
fn tier_names_in_any_case() {
    assert_eq!(level_from_name("VERBOSE"), OutputLevel::Verbose);
    assert_eq!(level_from_name("v"), OutputLevel::Verbose);
    assert_eq!(level_from_name("Normal"), OutputLevel::Normal);
    assert_eq!(level_from_name("N"), OutputLevel::Normal);
    assert_eq!(level_from_name("minimal"), OutputLevel::Minimal);
    assert_eq!(level_from_name(""), OutputLevel::Minimal);
    assert_eq!(level_from_name("loud"), OutputLevel::Minimal);
    assert_eq!(cfg("Verbose").output_level(), OutputLevel::Verbose);
    assert_eq!(cfg("whatever").output_level(), OutputLevel::Minimal);
}

#[test]
fn status_rendering_per_tier() {
    assert_eq!(render_status(OutputLevel::Minimal, "x"), "\rx ");
    assert_eq!(render_status(OutputLevel::Normal, "x"), "x\n");
    assert_eq!(render_status(OutputLevel::Verbose, "x"), "x\n");
    let c = render_clear(OutputLevel::Minimal);
    assert_eq!(c.len(), 82);
    assert_eq!(c, format!("\r{}\r", " ".repeat(80)));
    assert_eq!(render_clear(OutputLevel::Normal), "");
    assert_eq!(render_clear(OutputLevel::Verbose), "");
}

#[test]
fn defaults() {
    assert_eq!(default_remote_path(), "~/remotebuild-cache");
    assert!(default_true());
}

#[test]
fn remote_directory_is_quoted() {
    let s = Session::new("/c", "h");
    let c = mkdir_command(&s, "~/cache");
    assert_eq!(c.program, "ssh");
    assert_eq!(c.args, strings(&["-o", "ControlPath=/c/control_h", "h", "mkdir -p '~/cache'"]));
    assert!(c.capture);
    let plain = mkdir_command(&s, "/srv/build");
    assert_eq!(plain.args[3], "mkdir -p /srv/build");
}

#[test]
fn build_line_is_not_quoted() {
    assert_eq!(remote_build_line("~/my dir", "make -j4"), "cd ~/my dir && make -j4");
}

#[test]
fn push_arguments_in_order() {
    let s = Session::new("/c", "h");
    let c = push_command(&s, OutputLevel::Minimal, "~/r", "/p", &strings(&["*.o", "tmp/"]), None);
    assert_eq!(
        c.args,
        strings(&[
            "-avz",
            "--quiet",
            "--delete",
            "-e",
            "ssh -o ControlPath=/c/control_h",
            "--exclude=.git",
            "--exclude=.gitignore",
            "--exclude=*.nds",
            "--exclude=*.elf",
            "--exclude=build/",
            "--exclude=.ninja_*",
            "--exclude=compile_commands.json",
            "--exclude=*.o",
            "--exclude=tmp/",
            "/p/",
            "h:~/r/",
        ])
    );
    let m = push_command(&s, OutputLevel::Verbose, "~/r", "/p", &vec![], Some("/m"));
    assert_eq!(m.args[1], "-v");
    assert_eq!(m.args[12], "--files-from=/m");
}

#[test]
fn pull_arguments() {
    let s = Session::new("/c", "h");
    let c = pull_command(&s, OutputLevel::Normal, "~/r", "out/a.bin");
    assert_eq!(c.program, "rsync");
    assert_eq!(c.args, strings(&["-avz", "--quiet", "-e", "ssh -o ControlPath=/c/control_h", "h:~/r/out/a.bin", "."]));
}

#[test]
fn manifest_selection() {
    let t = Listing::Listed(strings(&["a", "b", "c"]));
    let u = Listing::Listed(strings(&["", "d", ""]));
    assert_eq!(select_manifest(true, &t, &u), Some(strings(&["a", "b", "c", "d"])));
    assert_eq!(select_manifest(false, &t, &u), None);
    assert_eq!(select_manifest(true, &Listing::Failed, &u), None);
    assert_eq!(select_manifest(true, &Listing::Unavailable, &u), None);
    assert_eq!(select_manifest(true, &t, &Listing::Unavailable), None);
    assert_eq!(select_manifest(true, &t, &Listing::Failed), Some(strings(&["a", "b", "c"])));
    assert_eq!(select_manifest(true, &Listing::Listed(vec![]), &Listing::Listed(strings(&[""]))), None);
    assert_eq!(select_manifest(true, &Listing::Listed(vec![]), &Listing::Listed(strings(&["n"]))), None);
}

#[test]
fn manifest_file_contents() {
    assert_eq!(join_lines(&strings(&["a", "b", "c"])), "a\nb\nc");
    assert_eq!(join_lines(&vec![]), "");
    assert_eq!(join_lines(&strings(&["only"])), "only");
}

#[test]
fn ssh_outcome() {
    assert!(run_ssh_command(Some(0), "").is_ok());
    match run_ssh_command(Some(255), "no route") {
        Err(PipelineError::Setup { stderr }) => assert_eq!(stderr, "no route"),
        _ => panic!("expected a setup failure"),
    }
    assert!(matches!(run_ssh_command(None, "killed"), Err(PipelineError::Setup { .. })));
}

#[test]
fn string_equality() {
    assert!(str_eq("abc", "abc"));
    assert!(!str_eq("abc", "abd"));
    assert!(!str_eq("ab", "abc"));
}

#[test]
fn remote_directory_quoting_edge_cases() {
    let s = Session::new("/c", "h");
    assert_eq!(mkdir_command(&s, "").args[3], "mkdir -p ''");
    assert_eq!(mkdir_command(&s, "it's!").args[3], "mkdir -p 'it'\\''s'\\!''");
    assert_eq!(mkdir_command(&s, "a-b_c=d/e,f.g+h").args[3], "mkdir -p a-b_c=d/e,f.g+h");
    assert_eq!(mkdir_command(&s, "my dir").args[3], "mkdir -p 'my dir'");
}

#[test]
fn socket_names_hold_no_separators() {
    let safe = sanitize_host("me@host:22 /x");
    assert_eq!(safe, "me_host_22__x");
    assert!(safe.chars().all(|c| c.is_alphanumeric() || c == '-' || c == '.' || c == '_'));
}
