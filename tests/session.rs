use create_rust_github_repo::session::{Action, Event, Session, Stage};
use create_rust_github_repo::CreateRustGithubRepo;

#[derive(Default)]
struct Log {
    stdout: Vec<String>,
    stderr: Vec<String>,
    ran: Vec<(String, String)>,
    copied: Vec<(String, String)>,
    steps: usize,
    end: Option<Action>,
}

/// Runs a session against a pretend machine on which the paths in `existing`
/// exist and the commands (or copy sources) in `failing` fail.
fn drive(session: &mut Session, existing: &[&str], failing: &[&str]) -> Log {
    let mut log = Log::default();
    let mut event = Event::Done;
    loop {
        log.steps += 1;
        match session.step(event) {
            Action::Command { echo, command, dir, run } => {
                log.stderr.push(echo);
                if run {
                    let success = !failing.contains(&command.as_str());
                    log.ran.push((command, dir));
                    let status = if success { "exit status: 0" } else { "exit status: 1" };
                    event = Event::Exited { success, status: status.to_string() };
                } else {
                    event = Event::Done;
                }
            }
            Action::Exists { path } => event = Event::Found(existing.contains(&path.as_str())),
            Action::Print { to_stderr, lines } => {
                if to_stderr {
                    log.stderr.extend(lines);
                } else {
                    log.stdout.extend(lines);
                }
                event = Event::Done;
            }
            Action::Copy { note, source, target } => {
                log.stderr.push(note);
                if failing.contains(&source.as_str()) {
                    event = Event::Failed("Permission denied (os error 13)".to_string());
                } else {
                    log.copied.push((source, target));
                    event = Event::Done;
                }
            }
            Action::ReadClock => event = Event::Clock(0),
            Action::ReadProgramName => event = Event::ProgramName(Some("create-rust-github-repo".to_string())),
            other => {
                log.end = Some(other);
                return log;
            }
        }
    }
}

fn get_dry_cmd() -> CreateRustGithubRepo {
    CreateRustGithubRepo::default().name("test").shell_cmd("/bin/sh").repo_exists_cmd("echo").dry_run(true)
}

fn github_cmd() -> CreateRustGithubRepo {
    CreateRustGithubRepo::default()
        .name("test")
        .shell_cmd("/bin/sh")
        .repo_exists_cmd("gh repo view --json nameWithOwner {{name}} 2>/dev/null")
        .repo_create_cmd("gh repo create --private {{name}}")
        .repo_clone_cmd("gh repo clone {{name}} {{dir}}")
        .project_init_cmd("cargo init")
        .project_test_cmd("cargo test")
        .repo_add_args("git add .")
        .repo_commit_args("git commit -m \"feat: setup project\"")
        .repo_push_args("git push")
}

fn pairs(items: &[(&str, &str)]) -> Vec<(String, String)> {
    items.iter().map(|(a, b)| (a.to_string(), b.to_string())).collect()
}

#[test]
fn test_support_link() {
    let cmd = get_dry_cmd().support_link_probability(1u64);
    let mut session = Session::new(cmd, "/tmp/work".to_string(), Some(0));
    let log = drive(&mut session, &[], &[]);
    assert_eq!(log.end, Some(Action::Finish));
    let stderr_string = log.stderr.join("\n");
    assert!(stderr_string.contains("Open an issue"));
    assert!(stderr_string.contains("Thank you for using create-rust-github-repo!"));
    assert!(stderr_string.contains("The message above can be disabled with --support-link-probability option"));
}

#[test]
fn dry_run_runs_only_the_probe() {
    let mut session = Session::new(get_dry_cmd(), "/tmp/work".to_string(), Some(0));
    let log = drive(&mut session, &[], &[]);
    assert_eq!(log.ran, pairs(&[("echo", "/tmp/work")]));
    assert_eq!(log.stderr.first().map(String::as_str), Some("$ echo"));
    assert!(log.copied.is_empty());
    assert_eq!(session.stage, Stage::Over);
}

#[test]
fn fresh_run_creates_clones_and_pushes() {
    let probe = "gh repo view --json nameWithOwner test 2>/dev/null";
    let mut session = Session::new(github_cmd(), "/tmp/work".to_string(), Some(1));
    let log = drive(&mut session, &[], &[probe]);
    assert_eq!(
        log.ran,
        pairs(&[
            (probe, "/tmp/work"),
            ("gh repo create --private test", "/tmp/work"),
            ("gh repo clone test /tmp/work/test", "/tmp/work"),
            ("cargo init", "/tmp/work/test"),
            ("cargo test", "/tmp/work/test"),
            ("git add .", "/tmp/work/test"),
            ("git commit -m \"feat: setup project\"", "/tmp/work/test"),
            ("git push", "/tmp/work/test"),
        ])
    );
    assert_eq!(log.stderr[1], "$ gh repo create --private test");
    assert!(log.stdout.is_empty());
    assert_eq!(log.end, Some(Action::Finish));
}

#[test]
fn existing_repo_dir_and_manifest_are_skipped() {
    let mut session = Session::new(github_cmd(), "/tmp/work".to_string(), Some(1));
    let log = drive(&mut session, &["/tmp/work/test", "/tmp/work/test/Cargo.toml"], &[]);
    let ran: Vec<&str> = log.ran.iter().map(|(c, _)| c.as_str()).collect();
    assert_eq!(
        ran,
        vec![
            "gh repo view --json nameWithOwner test 2>/dev/null",
            "cargo test",
            "git add .",
            "git commit -m \"feat: setup project\"",
            "git push",
        ]
    );
    assert_eq!(
        log.stdout,
        vec![
            "Directory \"/tmp/work/test\" exists, skipping clone command".to_string(),
            "Cargo.toml exists in \"/tmp/work/test\", skipping `cargo init` command".to_string(),
        ]
    );
}

#[test]
fn failing_command_aborts_with_context() {
    let mut session = Session::new(github_cmd(), "/tmp/work".to_string(), Some(1));
    let log = drive(&mut session, &[], &["cargo test"]);
    assert_eq!(
        log.end,
        Some(Action::Abort {
            context: Some("Failed to test the project".to_string()),
            cause: "Process exited with with status exit status: 1".to_string(),
        })
    );
    assert_eq!(log.ran.last().map(|(c, _)| c.as_str()), Some("cargo test"));
}

#[test]
fn probe_failure_aborts_with_context() {
    let mut session = Session::new(github_cmd(), "/tmp/work".to_string(), None);
    assert!(matches!(session.step(Event::Done), Action::Command { run: true, .. }));
    let action = session.step(Event::Failed("No such file or directory".to_string()));
    assert_eq!(
        action,
        Action::Abort {
            context: Some("Failed to find out if repository exists".to_string()),
            cause: "No such file or directory".to_string(),
        }
    );
    assert_eq!(session.step(Event::Done), Action::Abort {
        context: None,
        cause: "the run has already ended".to_string(),
    });
}

#[test]
fn unexpected_event_aborts() {
    let mut session = Session::new(github_cmd(), "/tmp/work".to_string(), None);
    let action = session.step(Event::Found(true));
    assert_eq!(
        action,
        Action::Abort { context: None, cause: "the event does not answer the action asked for".to_string() }
    );
    assert_eq!(session.stage, Stage::Over);
}

#[test]
fn configs_copied_only_when_source_exists_and_target_does_not() {
    let cmd = github_cmd()
        .copy_configs_from(Some("/src/proj".to_string()))
        .configs(vec!["rustfmt.toml".to_string(), String::new(), ".github".to_string(), "clippy.toml".to_string()]);
    let mut session = Session::new(cmd, "/tmp/work".to_string(), Some(1));
    let existing = ["/src/proj/rustfmt.toml", "/src/proj/.github", "/tmp/work/test/.github"];
    let log = drive(&mut session, &existing, &[]);
    assert_eq!(log.copied, pairs(&[("/src/proj/rustfmt.toml", "/tmp/work/test/rustfmt.toml")]));
    assert!(log.stderr.contains(&"[INFO] Copying /src/proj/rustfmt.toml to /tmp/work/test/rustfmt.toml".to_string()));
    assert!(log.stderr.contains(&"[INFO] Skipping /src/proj/.github because /tmp/work/test/.github exists".to_string()));
    assert!(log.stderr.contains(&"[INFO] Skipping /src/proj/clippy.toml because /tmp/work/test/clippy.toml exists".to_string()));
    assert_eq!(log.end, Some(Action::Finish));
}

#[test]
fn dry_run_notes_configs() {
    let cmd = get_dry_cmd()
        .copy_configs_from(Some("/src/proj".to_string()))
        .configs(vec![String::new(), "rustfmt.toml".to_string()]);
    let mut session = Session::new(cmd, "/tmp/work".to_string(), Some(1));
    let log = drive(&mut session, &["/src/proj/rustfmt.toml"], &[]);
    assert!(log.copied.is_empty());
    let notes: Vec<&String> = log.stderr.iter().filter(|l| l.starts_with("[INFO]")).collect();
    assert_eq!(notes, vec!["[INFO] Would copy /src/proj/rustfmt.toml to /tmp/work/test/rustfmt.toml"]);
}

#[test]
fn configs_ignored_without_source_project() {
    let cmd = github_cmd().configs(vec!["rustfmt.toml".to_string()]);
    let mut session = Session::new(cmd, "/tmp/work".to_string(), Some(1));
    let log = drive(&mut session, &["/tmp/work/test", "/tmp/work/test/Cargo.toml"], &[]);
    assert!(log.stderr.iter().all(|l| !l.starts_with("[INFO]")));
}

#[test]
fn target_dir_resolution() {
    let session = Session::new(github_cmd(), "/tmp/work".to_string(), None);
    assert_eq!(session.resolve_dir(), "/tmp/work/test");
    let session = Session::new(github_cmd().workspace(Some("/ws".to_string())), "/tmp/work".to_string(), None);
    assert_eq!(session.resolve_dir(), "/ws/test");
    let cmd = github_cmd().workspace(Some("/ws".to_string())).dir(Some("/elsewhere/x".to_string()));
    let session = Session::new(cmd, "/tmp/work".to_string(), None);
    assert_eq!(session.resolve_dir(), "/elsewhere/x");
}

#[test]
fn support_message_not_shown_when_disabled_or_not_due() {
    let mut session = Session::new(get_dry_cmd(), "/tmp/work".to_string(), None);
    let log = drive(&mut session, &[], &[]);
    assert!(log.stderr.iter().all(|l| !l.contains("Open an issue")));
    let mut session = Session::new(get_dry_cmd().support_link_probability(2), "/tmp/work".to_string(), Some(3));
    let log = drive(&mut session, &[], &[]);
    assert!(log.stderr.iter().all(|l| !l.contains("Open an issue")));
}

#[test]
fn dir_substituted_into_commands() {
    let cmd = github_cmd().dir(Some("/x/y".to_string())).project_test_cmd("cd {{dir}} && cargo test {{name}}");
    let mut session = Session::new(cmd, "/tmp/work".to_string(), Some(1));
    let log = drive(&mut session, &["/x/y", "/x/y/Cargo.toml"], &[]);
    assert!(log.ran.contains(&("cd /x/y && cargo test test".to_string(), "/x/y".to_string())));
}

#[test]
fn run_ends_within_step_bound() {
    let configs = vec!["a".to_string(), "b".to_string(), String::new(), "c".to_string()];
    let n = configs.len();
    let cmd = github_cmd().copy_configs_from(Some("/src".to_string())).configs(configs).support_link_probability(1);
    let mut session = Session::new(cmd, "/tmp/work".to_string(), None);
    let log = drive(&mut session, &["/src/a", "/src/b", "/src/c", "/tmp/work/test/b"], &[]);
    assert_eq!(log.end, Some(Action::Finish));
    assert_eq!(log.copied.len(), 2);
    assert!(log.steps <= 19 + 4 * n);
}

#[test]
fn failing_config_copy_aborts_with_context() {
    let cmd = github_cmd()
        .copy_configs_from(Some("/src".to_string()))
        .configs(vec!["a".to_string(), "b".to_string()]);
    let mut session = Session::new(cmd, "/tmp/work".to_string(), Some(1));
    let log = drive(&mut session, &["/src/a", "/src/b"], &["/src/a"]);
    assert_eq!(
        log.end,
        Some(Action::Abort {
            context: Some("Failed to copy configs".to_string()),
            cause: "Permission denied (os error 13)".to_string(),
        })
    );
    assert!(log.copied.is_empty());
    assert!(log.stderr.iter().all(|l| !l.contains("/src/b") && l != "$ cargo test"));
    assert!(log.ran.iter().all(|(c, _)| c != "cargo test"));
}
