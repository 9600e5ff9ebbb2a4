//! One run as a sequence of steps. The session decides what comes next; a
//! driver carries out each action it hands out (runs a command, looks at the
//! file system, prints) and reports the outcome as the next event.
use vstd::prelude::*;
use vstd::string::*;

use crate::config::CreateRustGithubRepo;
use crate::paths::{join_path, joined};
use crate::substitution::{replace_all, substituted};
use crate::support::{
    get_new_issue_url, new_issue_url, support_link_due, support_link_is_due, support_message,
    support_message_lines, REPOSITORY,
};

verus! {

broadcast use vstd::string::group_string_axioms;

/// A command of the run that changes something.
#[derive(Clone, Copy, Debug, PartialEq, Eq, Structural)]
pub enum CommandStep {
    CreateRepo,
    CloneRepo,
    InitProject,
    TestProject,
    AddFiles,
    Commit,
    Push,
}

/// What the session waits for.
#[derive(Clone, Copy, Debug, PartialEq, Eq, Structural)]
pub enum Stage {
    /// Nothing has been asked yet.
    Start,
    /// The command that tells whether the repository exists.
    ProbingRepo,
    /// A command that changes something.
    Running(CommandStep),
    /// Whether the target directory exists.
    CheckingDir,
    /// The note that the clone is skipped.
    NotingClone,
    /// Whether the project manifest exists.
    CheckingManifest,
    /// The note that project initialisation is skipped.
    NotingInit,
    /// Whether the source of the configuration path at this index exists.
    CheckingSource(usize),
    /// Whether the target of the configuration path at this index exists.
    CheckingTarget(usize),
    /// The note on the configuration path at this index.
    NotingConfig(usize),
    /// The copy of the configuration path at this index.
    CopyingConfig(usize),
    /// The time now.
    ReadingClock,
    /// The name of the running program.
    ReadingName,
    /// The support message.
    Thanking,
    /// Nothing: the run has ended.
    Over,
}

/// The outcome of an action, reported by the driver.
#[derive(Debug, PartialEq, Eq)]
pub enum Event {
    /// The action was carried out and has nothing to report.
    Done,
    /// The command ran to its end; `status` describes how it exited.
    Exited { success: bool, status: String },
    /// Whether the path asked about exists.
    Found(bool),
    /// The time now, in seconds since the Unix epoch.
    Clock(u64),
    /// The file name of the running program, when it has one in UTF-8.
    ProgramName(Option<String>),
    /// The action failed; the text describes why.
    Failed(String),
}

/// Work for the driver.
#[derive(Debug, PartialEq, Eq)]
pub enum Action {
    /// Write `echo` as a line on standard error; then, when `run` holds, run
    /// `command` through the shell in the directory `dir` and report how it
    /// exited.
    Command { echo: String, command: String, dir: String, run: bool },
    /// Report whether `path` exists.
    Exists { path: String },
    /// Write each of `lines` as a line on standard error when `to_stderr`
    /// holds, else on standard output.
    Print { to_stderr: bool, lines: Vec<String> },
    /// Write `note` as a line on standard error, make the parent directories
    /// of `target`, then copy the file or directory `source` to `target`,
    /// keeping whatever already exists there.
    Copy { note: String, source: String, target: String },
    /// Report the time now.
    ReadClock,
    /// Report the file name of the running program.
    ReadProgramName,
    /// Stop: the run has succeeded.
    Finish,
    /// Stop: the run has failed with `cause`, in the step that `context`
    /// names.
    Abort { context: Option<String>, cause: String },
}

/// An action as plain values.
pub enum ActionView {
    Command { echo: Seq<char>, command: Seq<char>, dir: Seq<char>, run: bool },
    Exists { path: Seq<char> },
    Print { to_stderr: bool, lines: Seq<Seq<char>> },
    Copy { note: Seq<char>, source: Seq<char>, target: Seq<char> },
    ReadClock,
    ReadProgramName,
    Finish,
    Abort { context: Option<Seq<char>>, cause: Seq<char> },
}

impl View for Action {
    type V = ActionView;

    open spec fn view(&self) -> ActionView {
        match self {
            Action::Command { echo, command, dir, run } => ActionView::Command {
                echo: echo@,
                command: command@,
                dir: dir@,
                run: *run,
            },
            Action::Exists { path } => ActionView::Exists { path: path@ },
            Action::Print { to_stderr, lines } => ActionView::Print {
                to_stderr: *to_stderr,
                lines: lines.deep_view(),
            },
            Action::Copy { note, source, target } => ActionView::Copy {
                note: note@,
                source: source@,
                target: target@,
            },
            Action::ReadClock => ActionView::ReadClock,
            Action::ReadProgramName => ActionView::ReadProgramName,
            Action::Finish => ActionView::Finish,
            Action::Abort { context, cause } => ActionView::Abort {
                context: context.deep_view(),
                cause: cause@,
            },
        }
    }
}

/// A run in progress: its settings, the directory it started in, the time
/// given for it (if any) and the stage it has reached.
pub struct Session {
    pub config: CreateRustGithubRepo,
    pub current_dir: String,
    pub now: Option<u64>,
    pub stage: Stage,
}

/// The directory the repository goes to: `dir` when given, else the name
/// under `workspace` when that is given, else the name under the directory
/// the run started in.
pub open spec fn target_dir(c: CreateRustGithubRepo, current_dir: Seq<char>) -> Seq<char> {
    match c.dir {
        Some(d) => d@,
        None => match c.workspace {
            Some(w) => joined(w@, c.name@),
            None => joined(current_dir, c.name@),
        },
    }
}

/// The substitutions that command templates get.
pub open spec fn substitutions_for(name: Seq<char>, dir: Seq<char>) -> Seq<(Seq<char>, Seq<char>)> {
    seq![("{{name}}"@, name), ("{{dir}}"@, dir)]
}

/// The template of a command step.
pub open spec fn template_of(c: CreateRustGithubRepo, k: CommandStep) -> Seq<char> {
    match k {
        CommandStep::CreateRepo => c.repo_create_cmd@,
        CommandStep::CloneRepo => c.repo_clone_cmd@,
        CommandStep::InitProject => c.project_init_cmd@,
        CommandStep::TestProject => c.project_test_cmd@,
        CommandStep::AddFiles => c.repo_add_args@,
        CommandStep::Commit => c.repo_commit_args@,
        CommandStep::Push => c.repo_push_args@,
    }
}

/// What a failure of a command step is reported as.
pub open spec fn failure_context(k: CommandStep) -> Seq<char> {
    match k {
        CommandStep::CreateRepo => "Failed to create repository"@,
        CommandStep::CloneRepo => "Failed to clone repository"@,
        CommandStep::InitProject => "Failed to initialize the project"@,
        CommandStep::TestProject => "Failed to test the project"@,
        CommandStep::AddFiles => "Failed to add files for commit"@,
        CommandStep::Commit => "Failed to commit changes"@,
        CommandStep::Push => "Failed to push changes"@,
    }
}

/// What a failure of the existence check is reported as.
pub open spec fn probe_failure_context() -> Seq<char> {
    "Failed to find out if repository exists"@
}

/// What a failure while copying configuration paths is reported as.
pub open spec fn copy_failure_context() -> Seq<char> {
    "Failed to copy configs"@
}

/// The first index at or after `j` of a configuration path that is not
/// empty, or the number of paths when there is none.
pub open spec fn next_config(c: CreateRustGithubRepo, j: int) -> int
    decreases c.configs@.len() - j,
{
    if j < 0 || j >= c.configs@.len() {
        c.configs@.len() as int
    } else if c.configs@[j]@.len() > 0 {
        j
    } else {
        next_config(c, j + 1)
    }
}

/// The action that echoes `command` and runs it in `dir` when `run` holds.
pub open spec fn command_action(command: Seq<char>, dir: Seq<char>, run: bool) -> ActionView {
    ActionView::Command { echo: "$ "@ + command, command, dir, run }
}

/// A stop with an error.
pub open spec fn abort(context: Option<Seq<char>>, cause: Seq<char>) -> (Stage, ActionView) {
    (Stage::Over, ActionView::Abort { context, cause })
}

/// The cause given when an event does not answer the action asked for.
pub open spec fn unexpected_event() -> Seq<char> {
    "the event does not answer the action asked for"@
}

/// The cause given for an event after the end of the run.
pub open spec fn run_over() -> Seq<char> {
    "the run has already ended"@
}

/// The name the support message uses when the program has none.
pub open spec fn program_name(name: Option<Seq<char>>) -> Seq<char> {
    match name {
        Some(n) => n,
        None => "this program"@,
    }
}

impl Session {
    /// A dry run is not at a stage that only a real run reaches. A new
    /// session is, and each step keeps it so.
    pub open spec fn dry_run_consistent(self) -> bool {
        self.config.dry_run ==> !(self.stage is CheckingSource || self.stage is CheckingTarget
            || self.stage is CopyingConfig)
    }

    /// The directory the repository goes to.
    pub open spec fn target(self) -> Seq<char> {
        target_dir(self.config, self.current_dir@)
    }

    /// `template` with the repository name and directory filled in.
    pub open spec fn command_text(self, template: Seq<char>) -> Seq<char> {
        substituted(template, substitutions_for(self.config.name@, self.target()))
    }

    /// The directory a command step runs in: the starting directory until the
    /// repository is cloned, the repository after.
    pub open spec fn workdir(self, k: CommandStep) -> Seq<char> {
        match k {
            CommandStep::CreateRepo | CommandStep::CloneRepo => self.current_dir@,
            _ => self.target(),
        }
    }

    /// Whether index `k` names a configuration path to copy.
    pub open spec fn has_config(self, k: int) -> bool {
        self.config.copy_configs_from is Some && 0 <= k < self.config.configs@.len()
    }

    /// Where the configuration path at index `k` is copied from.
    pub open spec fn config_source(self, k: int) -> Seq<char> {
        joined(self.config.copy_configs_from->0@, self.config.configs@[k]@)
    }

    /// Where the configuration path at index `k` is copied to.
    pub open spec fn config_target(self, k: int) -> Seq<char> {
        joined(self.target(), self.config.configs@[k]@)
    }

    /// Ask whether the repository exists.
    pub open spec fn probe_step(self) -> (Stage, ActionView) {
        (
            Stage::ProbingRepo,
            command_action(self.command_text(self.config.repo_exists_cmd@), self.current_dir@, true),
        )
    }

    /// Start command step `k`; a dry run only echoes it.
    pub open spec fn command_step(self, k: CommandStep) -> (Stage, ActionView) {
        (
            Stage::Running(k),
            command_action(
                self.command_text(template_of(self.config, k)),
                self.workdir(k),
                !self.config.dry_run,
            ),
        )
    }

    /// Ask whether the target directory exists.
    pub open spec fn dir_step(self) -> (Stage, ActionView) {
        (Stage::CheckingDir, ActionView::Exists { path: self.target() })
    }

    /// Ask whether the project manifest exists.
    pub open spec fn manifest_step(self) -> (Stage, ActionView) {
        (Stage::CheckingManifest, ActionView::Exists { path: joined(self.target(), "Cargo.toml"@) })
    }

    /// Go on with the configuration paths from index `j`: the first one that
    /// is not empty is noted in a dry run and checked otherwise; with none
    /// left, the project is tested.
    pub open spec fn config_step(self, j: int) -> (Stage, ActionView) {
        let k = next_config(self.config, j);
        if !self.has_config(k) {
            self.command_step(CommandStep::TestProject)
        } else if self.config.dry_run {
            (
                Stage::NotingConfig(k as usize),
                ActionView::Print {
                    to_stderr: true,
                    lines: seq![
                        "[INFO] Would copy "@ + self.config_source(k) + " to "@
                            + self.config_target(k),
                    ],
                },
            )
        } else {
            (Stage::CheckingSource(k as usize), ActionView::Exists { path: self.config_source(k) })
        }
    }

    /// The note that the configuration path at index `k` is left alone.
    pub open spec fn config_skip_step(self, k: int) -> (Stage, ActionView) {
        (
            Stage::NotingConfig(k as usize),
            ActionView::Print {
                to_stderr: true,
                lines: seq![
                    "[INFO] Skipping "@ + self.config_source(k) + " because "@
                        + self.config_target(k) + " exists"@,
                ],
            },
        )
    }

    /// What follows command step `k` when it has succeeded.
    pub open spec fn after_command(self, k: CommandStep) -> (Stage, ActionView) {
        match k {
            CommandStep::CreateRepo => self.dir_step(),
            CommandStep::CloneRepo => self.manifest_step(),
            CommandStep::InitProject => self.config_step(0),
            CommandStep::TestProject => self.command_step(CommandStep::AddFiles),
            CommandStep::AddFiles => self.command_step(CommandStep::Commit),
            CommandStep::Commit => self.command_step(CommandStep::Push),
            CommandStep::Push => self.support_step(),
        }
    }

    /// After the last command: decide on the support message, asking for the
    /// time first when none was given.
    pub open spec fn support_step(self) -> (Stage, ActionView) {
        match self.now {
            Some(t) => self.support_decision(t),
            None => (Stage::ReadingClock, ActionView::ReadClock),
        }
    }

    /// Show the support message at time `t` when it is due and there is a
    /// page to open issues on; else finish.
    pub open spec fn support_decision(self, t: u64) -> (Stage, ActionView) {
        if support_link_due(self.config.support_link_probability, t) && new_issue_url(
            REPOSITORY@,
        ) is Some {
            (Stage::ReadingName, ActionView::ReadProgramName)
        } else {
            (Stage::Over, ActionView::Finish)
        }
    }

    /// The next stage and action when `event` arrives.
    pub open spec fn transition(self, event: Event) -> (Stage, ActionView) {
        match self.stage {
            Stage::Start => match event {
                Event::Done => self.probe_step(),
                Event::Failed(c) => abort(None, c@),
                _ => abort(None, unexpected_event()),
            },
            Stage::ProbingRepo => match event {
                Event::Exited { success, .. } => if success {
                    self.dir_step()
                } else {
                    self.command_step(CommandStep::CreateRepo)
                },
                Event::Failed(c) => abort(Some(probe_failure_context()), c@),
                _ => abort(None, unexpected_event()),
            },
            Stage::Running(k) => match event {
                Event::Done => self.after_command(k),
                Event::Exited { success, status } => if success {
                    self.after_command(k)
                } else {
                    abort(Some(failure_context(k)), "Process exited with with status "@ + status@)
                },
                Event::Failed(c) => abort(Some(failure_context(k)), c@),
                _ => abort(None, unexpected_event()),
            },
            Stage::CheckingDir => match event {
                Event::Found(exists) => if exists {
                    (
                        Stage::NotingClone,
                        ActionView::Print {
                            to_stderr: false,
                            lines: seq![
                                "Directory \""@ + self.target()
                                    + "\" exists, skipping clone command"@,
                            ],
                        },
                    )
                } else {
                    self.command_step(CommandStep::CloneRepo)
                },
                Event::Failed(c) => abort(None, c@),
                _ => abort(None, unexpected_event()),
            },
            Stage::NotingClone => match event {
                Event::Done => self.manifest_step(),
                Event::Failed(c) => abort(None, c@),
                _ => abort(None, unexpected_event()),
            },
            Stage::CheckingManifest => match event {
                Event::Found(exists) => if exists {
                    (
                        Stage::NotingInit,
                        ActionView::Print {
                            to_stderr: false,
                            lines: seq![
                                "Cargo.toml exists in \""@ + self.target()
                                    + "\", skipping `cargo init` command"@,
                            ],
                        },
                    )
                } else {
                    self.command_step(CommandStep::InitProject)
                },
                Event::Failed(c) => abort(None, c@),
                _ => abort(None, unexpected_event()),
            },
            Stage::NotingInit => match event {
                Event::Done => self.config_step(0),
                Event::Failed(c) => abort(None, c@),
                _ => abort(None, unexpected_event()),
            },
            Stage::CheckingSource(k) => match event {
                Event::Found(exists) => if !self.has_config(k as int) {
                    self.command_step(CommandStep::TestProject)
                } else if exists {
                    (
                        Stage::CheckingTarget(k),
                        ActionView::Exists { path: self.config_target(k as int) },
                    )
                } else {
                    self.config_skip_step(k as int)
                },
                Event::Failed(c) => abort(Some(copy_failure_context()), c@),
                _ => abort(None, unexpected_event()),
            },
            Stage::CheckingTarget(k) => match event {
                Event::Found(exists) => if !self.has_config(k as int) {
                    self.command_step(CommandStep::TestProject)
                } else if exists {
                    self.config_skip_step(k as int)
                } else {
                    (
                        Stage::CopyingConfig(k),
                        ActionView::Copy {
                            note: "[INFO] Copying "@ + self.config_source(k as int) + " to "@
                                + self.config_target(k as int),
                            source: self.config_source(k as int),
                            target: self.config_target(k as int),
                        },
                    )
                },
                Event::Failed(c) => abort(Some(copy_failure_context()), c@),
                _ => abort(None, unexpected_event()),
            },
            Stage::NotingConfig(k) | Stage::CopyingConfig(k) => match event {
                Event::Done => if self.has_config(k as int) {
                    self.config_step(k + 1)
                } else {
                    self.command_step(CommandStep::TestProject)
                },
                Event::Failed(c) => abort(Some(copy_failure_context()), c@),
                _ => abort(None, unexpected_event()),
            },
            Stage::ReadingClock => match event {
                Event::Clock(t) => self.support_decision(t),
                Event::Failed(c) => abort(None, c@),
                _ => abort(None, unexpected_event()),
            },
            Stage::ReadingName => match event {
                Event::ProgramName(name) => match new_issue_url(REPOSITORY@) {
                    Some(url) => (
                        Stage::Thanking,
                        ActionView::Print {
                            to_stderr: true,
                            lines: support_message(program_name(name.deep_view()), url),
                        },
                    ),
                    None => (Stage::Over, ActionView::Finish),
                },
                Event::Failed(c) => abort(None, c@),
                _ => abort(None, unexpected_event()),
            },
            Stage::Thanking => match event {
                Event::Done => (Stage::Over, ActionView::Finish),
                Event::Failed(c) => abort(None, c@),
                _ => abort(None, unexpected_event()),
            },
            Stage::Over => abort(None, run_over()),
        }
    }
}


/// Whether the stage and action in `r` are those of `expected`.
pub open spec fn yields(r: (Stage, Action), expected: (Stage, ActionView)) -> bool {
    r.0 == expected.0 && r.1@ == expected.1
}

fn text(a: &str, b: &str) -> (r: String)
    ensures
        r@ == a@ + b@,
{
    String::from_str(a).concat(b)
}

fn one_line(line: String) -> (r: Vec<String>)
    ensures
        r.deep_view() == seq![line@],
{
    let mut r: Vec<String> = Vec::new();
    r.push(line);
    assert(r.deep_view() =~= seq![line@]);
    r
}

fn stop(context: Option<String>, cause: String) -> (r: (Stage, Action))
    ensures
        yields(r, abort(context.deep_view(), cause@)),
{
    (Stage::Over, Action::Abort { context, cause })
}

fn stop_unexpected() -> (r: (Stage, Action))
    ensures
        yields(r, abort(None, unexpected_event())),
{
    stop(None, String::from_str("the event does not answer the action asked for"))
}

fn command_action_for(command: String, dir: String, run: bool) -> (r: Action)
    ensures
        r@ == command_action(command@, dir@, run),
{
    let echo = text("$ ", command.as_str());
    Action::Command { echo, command, dir, run }
}

fn failure_context_text(k: CommandStep) -> (r: String)
    ensures
        r@ == failure_context(k),
{
    match k {
        CommandStep::CreateRepo => String::from_str("Failed to create repository"),
        CommandStep::CloneRepo => String::from_str("Failed to clone repository"),
        CommandStep::InitProject => String::from_str("Failed to initialize the project"),
        CommandStep::TestProject => String::from_str("Failed to test the project"),
        CommandStep::AddFiles => String::from_str("Failed to add files for commit"),
        CommandStep::Commit => String::from_str("Failed to commit changes"),
        CommandStep::Push => String::from_str("Failed to push changes"),
    }
}

impl Session {
    /// A session at its start.
    pub fn new(config: CreateRustGithubRepo, current_dir: String, now: Option<u64>) -> (r: Session)
        ensures
            r.config == config,
            r.current_dir == current_dir,
            r.now == now,
            r.stage == Stage::Start,
            r.dry_run_consistent(),
    {
        Session { config, current_dir, now, stage: Stage::Start }
    }

    /// The directory the repository goes to.
    pub fn resolve_dir(&self) -> (r: String)
        ensures
            r@ == self.target(),
    {
        match &self.config.dir {
            Some(d) => d.clone(),
            None => match &self.config.workspace {
                Some(w) => join_path(w.as_str(), self.config.name.as_str()),
                None => join_path(self.current_dir.as_str(), self.config.name.as_str()),
            },
        }
    }

    /// `template` with the repository name and `dir` filled in.
    fn fill(&self, template: &String, dir: &String) -> (r: String)
        requires
            dir@ == self.target(),
        ensures
            r@ == self.command_text(template@),
    {
        let mut subs: Vec<(String, String)> = Vec::new();
        subs.push((String::from_str("{{name}}"), self.config.name.clone()));
        subs.push((String::from_str("{{dir}}"), dir.clone()));
        assert(subs.deep_view() =~= substitutions_for(self.config.name@, dir@));
        replace_all(template.clone(), &subs)
    }

    fn template(&self, k: CommandStep) -> (r: &String)
        ensures
            r@ == template_of(self.config, k),
    {
        match k {
            CommandStep::CreateRepo => &self.config.repo_create_cmd,
            CommandStep::CloneRepo => &self.config.repo_clone_cmd,
            CommandStep::InitProject => &self.config.project_init_cmd,
            CommandStep::TestProject => &self.config.project_test_cmd,
            CommandStep::AddFiles => &self.config.repo_add_args,
            CommandStep::Commit => &self.config.repo_commit_args,
            CommandStep::Push => &self.config.repo_push_args,
        }
    }

    fn probe(&self, dir: &String) -> (r: (Stage, Action))
        requires
            dir@ == self.target(),
        ensures
            yields(r, self.probe_step()),
    {
        let command = self.fill(&self.config.repo_exists_cmd, dir);
        (Stage::ProbingRepo, command_action_for(command, self.current_dir.clone(), true))
    }

    fn run_command(&self, k: CommandStep, dir: &String) -> (r: (Stage, Action))
        requires
            dir@ == self.target(),
        ensures
            yields(r, self.command_step(k)),
    {
        let command = self.fill(self.template(k), dir);
        let workdir = match k {
            CommandStep::CreateRepo | CommandStep::CloneRepo => self.current_dir.clone(),
            _ => dir.clone(),
        };
        (Stage::Running(k), command_action_for(command, workdir, !self.config.dry_run))
    }

    fn check_dir(&self, dir: &String) -> (r: (Stage, Action))
        requires
            dir@ == self.target(),
        ensures
            yields(r, self.dir_step()),
    {
        (Stage::CheckingDir, Action::Exists { path: dir.clone() })
    }

    fn check_manifest(&self, dir: &String) -> (r: (Stage, Action))
        requires
            dir@ == self.target(),
        ensures
            yields(r, self.manifest_step()),
    {
        (Stage::CheckingManifest, Action::Exists { path: join_path(dir.as_str(), "Cargo.toml") })
    }

    fn config_paths(&self, k: usize, dir: &String) -> (r: (String, String))
        requires
            dir@ == self.target(),
            self.has_config(k as int),
        ensures
            r.0@ == self.config_source(k as int),
            r.1@ == self.config_target(k as int),
    {
        let path = self.config.configs[k].as_str();
        match &self.config.copy_configs_from {
            Some(from) => (join_path(from.as_str(), path), join_path(dir.as_str(), path)),
            None => (String::new(), String::new()),
        }
    }

    fn visit_configs(&self, j: usize, dir: &String) -> (r: (Stage, Action))
        requires
            dir@ == self.target(),
        ensures
            yields(r, self.config_step(j as int)),
    {
        let n = self.config.configs.len();
        let mut k = j;
        while k < n && self.config.configs[k].as_str().is_empty()
            invariant
                n == self.config.configs@.len(),
                j <= k,
                next_config(self.config, j as int) == next_config(self.config, k as int),
            decreases n - k,
        {
            k = k + 1;
        }
        let present = self.config.copy_configs_from.is_some() && k < n;
        if !present {
            return self.run_command(CommandStep::TestProject, dir);
        }
        let (source, target) = self.config_paths(k, dir);
        if self.config.dry_run {
            let line = text("[INFO] Would copy ", source.as_str()).concat(" to ").concat(
                target.as_str(),
            );
            (Stage::NotingConfig(k), Action::Print { to_stderr: true, lines: one_line(line) })
        } else {
            (Stage::CheckingSource(k), Action::Exists { path: source })
        }
    }

    fn skip_config(&self, k: usize, dir: &String) -> (r: (Stage, Action))
        requires
            dir@ == self.target(),
            self.has_config(k as int),
        ensures
            yields(r, self.config_skip_step(k as int)),
    {
        let (source, target) = self.config_paths(k, dir);
        let line = text("[INFO] Skipping ", source.as_str()).concat(" because ").concat(
            target.as_str(),
        ).concat(" exists");
        (Stage::NotingConfig(k), Action::Print { to_stderr: true, lines: one_line(line) })
    }

    fn copy_config(&self, k: usize, dir: &String) -> (r: (Stage, Action))
        requires
            dir@ == self.target(),
            self.has_config(k as int),
        ensures
            r.0 == Stage::CopyingConfig(k),
            r.1@ == (ActionView::Copy {
                note: "[INFO] Copying "@ + self.config_source(k as int) + " to "@
                    + self.config_target(k as int),
                source: self.config_source(k as int),
                target: self.config_target(k as int),
            }),
    {
        let (source, target) = self.config_paths(k, dir);
        let note = text("[INFO] Copying ", source.as_str()).concat(" to ").concat(target.as_str());
        (Stage::CopyingConfig(k), Action::Copy { note, source, target })
    }

    fn decide_support(&self, t: u64) -> (r: (Stage, Action))
        ensures
            yields(r, self.support_decision(t)),
    {
        if support_link_is_due(self.config.support_link_probability, t) && get_new_issue_url(
            REPOSITORY,
        ).is_some() {
            (Stage::ReadingName, Action::ReadProgramName)
        } else {
            (Stage::Over, Action::Finish)
        }
    }

    fn support(&self) -> (r: (Stage, Action))
        ensures
            yields(r, self.support_step()),
    {
        match self.now {
            Some(t) => self.decide_support(t),
            None => (Stage::ReadingClock, Action::ReadClock),
        }
    }

    fn after(&self, k: CommandStep, dir: &String) -> (r: (Stage, Action))
        requires
            dir@ == self.target(),
        ensures
            yields(r, self.after_command(k)),
    {
        match k {
            CommandStep::CreateRepo => self.check_dir(dir),
            CommandStep::CloneRepo => self.check_manifest(dir),
            CommandStep::InitProject => self.visit_configs(0, dir),
            CommandStep::TestProject => self.run_command(CommandStep::AddFiles, dir),
            CommandStep::AddFiles => self.run_command(CommandStep::Commit, dir),
            CommandStep::Commit => self.run_command(CommandStep::Push, dir),
            CommandStep::Push => self.support(),
        }
    }

    /// Take in the outcome of the last action and hand out the next one.
    /// The session starts on `Event::Done` and ends with `Action::Finish` or
    /// `Action::Abort`.
    pub fn step(&mut self, event: Event) -> (r: Action)
        ensures
            final(self).stage == old(self).transition(event).0,
            r@ == old(self).transition(event).1,
            final(self).config == old(self).config,
            final(self).current_dir == old(self).current_dir,
            final(self).now == old(self).now,
            old(self).dry_run_consistent() ==> final(self).dry_run_consistent(),
    {
        proof {
            if old(self).dry_run_consistent() {
                lemma_dry_run_stages_kept(*old(self), event);
            }
        }
        let dir = self.resolve_dir();
        let next = match self.stage {
            Stage::Start => match event {
                Event::Done => self.probe(&dir),
                Event::Failed(c) => stop(None, c),
                _ => stop_unexpected(),
            },
            Stage::ProbingRepo => match event {
                Event::Exited { success, .. } => if success {
                    self.check_dir(&dir)
                } else {
                    self.run_command(CommandStep::CreateRepo, &dir)
                },
                Event::Failed(c) => stop(
                    Some(String::from_str("Failed to find out if repository exists")),
                    c,
                ),
                _ => stop_unexpected(),
            },
            Stage::Running(k) => match event {
                Event::Done => self.after(k, &dir),
                Event::Exited { success, status } => if success {
                    self.after(k, &dir)
                } else {
                    stop(
                        Some(failure_context_text(k)),
                        text("Process exited with with status ", status.as_str()),
                    )
                },
                Event::Failed(c) => stop(Some(failure_context_text(k)), c),
                _ => stop_unexpected(),
            },
            Stage::CheckingDir => match event {
                Event::Found(exists) => if exists {
                    let line = text("Directory \"", dir.as_str()).concat(
                        "\" exists, skipping clone command",
                    );
                    (Stage::NotingClone, Action::Print { to_stderr: false, lines: one_line(line) })
                } else {
                    self.run_command(CommandStep::CloneRepo, &dir)
                },
                Event::Failed(c) => stop(None, c),
                _ => stop_unexpected(),
            },
            Stage::NotingClone => match event {
                Event::Done => self.check_manifest(&dir),
                Event::Failed(c) => stop(None, c),
                _ => stop_unexpected(),
            },
            Stage::CheckingManifest => match event {
                Event::Found(exists) => if exists {
                    let line = text("Cargo.toml exists in \"", dir.as_str()).concat(
                        "\", skipping `cargo init` command",
                    );
                    (Stage::NotingInit, Action::Print { to_stderr: false, lines: one_line(line) })
                } else {
                    self.run_command(CommandStep::InitProject, &dir)
                },
                Event::Failed(c) => stop(None, c),
                _ => stop_unexpected(),
            },
            Stage::NotingInit => match event {
                Event::Done => self.visit_configs(0, &dir),
                Event::Failed(c) => stop(None, c),
                _ => stop_unexpected(),
            },
            Stage::CheckingSource(k) => match event {
                Event::Found(exists) => if !self.in_configs(k) {
                    self.run_command(CommandStep::TestProject, &dir)
                } else if exists {
                    let (_, target) = self.config_paths(k, &dir);
                    (Stage::CheckingTarget(k), Action::Exists { path: target })
                } else {
                    self.skip_config(k, &dir)
                },
                Event::Failed(c) => stop(Some(String::from_str("Failed to copy configs")), c),
                _ => stop_unexpected(),
            },
            Stage::CheckingTarget(k) => match event {
                Event::Found(exists) => if !self.in_configs(k) {
                    self.run_command(CommandStep::TestProject, &dir)
                } else if exists {
                    self.skip_config(k, &dir)
                } else {
                    self.copy_config(k, &dir)
                },
                Event::Failed(c) => stop(Some(String::from_str("Failed to copy configs")), c),
                _ => stop_unexpected(),
            },
            Stage::NotingConfig(k) | Stage::CopyingConfig(k) => match event {
                Event::Done => if self.in_configs(k) {
                    self.visit_configs(k + 1, &dir)
                } else {
                    self.run_command(CommandStep::TestProject, &dir)
                },
                Event::Failed(c) => stop(Some(String::from_str("Failed to copy configs")), c),
                _ => stop_unexpected(),
            },
            Stage::ReadingClock => match event {
                Event::Clock(t) => self.decide_support(t),
                Event::Failed(c) => stop(None, c),
                _ => stop_unexpected(),
            },
            Stage::ReadingName => match event {
                Event::ProgramName(name) => match get_new_issue_url(REPOSITORY) {
                    Some(url) => {
                        let exe = match name {
                            Some(n) => n,
                            None => String::from_str("this program"),
                        };
                        let lines = support_message_lines(exe.as_str(), url.as_str());
                        (Stage::Thanking, Action::Print { to_stderr: true, lines })
                    },
                    None => (Stage::Over, Action::Finish),
                },
                Event::Failed(c) => stop(None, c),
                _ => stop_unexpected(),
            },
            Stage::Thanking => match event {
                Event::Done => (Stage::Over, Action::Finish),
                Event::Failed(c) => stop(None, c),
                _ => stop_unexpected(),
            },
            Stage::Over => stop(None, String::from_str("the run has already ended")),
        };
        self.stage = next.0;
        next.1
    }

    fn in_configs(&self, k: usize) -> (r: bool)
        ensures
            r == self.has_config(k as int),
            r ==> k < usize::MAX,
    {
        self.config.copy_configs_from.is_some() && k < self.config.configs.len()
    }
}

/// Skip-if-exists: the repository is created only after the existence check
/// failed, it is cloned only when the target directory is missing, the
/// project is initialised only when its manifest is missing, and a
/// configuration path is copied only when its source was found and its
/// target is missing.
pub proof fn lemma_changes_follow_missing(s: Session, e: Event)
    ensures
        s.transition(e).0 == Stage::Running(CommandStep::CreateRepo) ==> s.stage == Stage::ProbingRepo
            && e matches Event::Exited { success: false, .. },
        s.transition(e).0 == Stage::Running(CommandStep::CloneRepo) ==> s.stage == Stage::CheckingDir
            && e == Event::Found(false),
        s.transition(e).0 == Stage::Running(CommandStep::InitProject) ==> s.stage
            == Stage::CheckingManifest && e == Event::Found(false),
        forall|k: usize|
            #![auto]
            s.transition(e).0 == Stage::CheckingTarget(k) ==> s.stage == Stage::CheckingSource(k)
                && e == Event::Found(true),
        forall|k: usize|
            #![auto]
            s.transition(e).0 == Stage::CopyingConfig(k) ==> s.stage == Stage::CheckingTarget(k)
                && e == Event::Found(false),
{
}

/// The session after `e` arrives.
pub open spec fn after_event(s: Session, e: Event) -> Session {
    Session { stage: s.transition(e).0, ..s }
}

/// A session in the stages of a dry run stays in them: it never comes to
/// look at or copy a configuration path.
pub proof fn lemma_dry_run_stages_kept(s: Session, e: Event)
    requires
        s.dry_run_consistent(),
    ensures
        after_event(s, e).dry_run_consistent(),
{
}

/// A dry run changes nothing: the only command it runs is the check whether
/// the repository exists, and it copies no files.
pub proof fn lemma_dry_run_changes_nothing(s: Session, e: Event)
    requires
        s.config.dry_run,
        s.dry_run_consistent(),
    ensures
        s.transition(e).1 matches ActionView::Command { run: true, .. } ==> s.transition(e).0
            == Stage::ProbingRepo,
        !(s.transition(e).1 is Copy),
{
}

/// Every command handed out is its template with the repository name and
/// directory substituted, and it is echoed as `$ ` and the command.
pub proof fn lemma_commands_are_filled_templates(s: Session, e: Event)
    ensures
        s.transition(e).1 matches ActionView::Command { echo, command, .. } ==> echo == "$ "@
            + command && match s.transition(e).0 {
            Stage::ProbingRepo => command == s.command_text(s.config.repo_exists_cmd@),
            Stage::Running(k) => command == s.command_text(template_of(s.config, k)),
            _ => false,
        },
{
}

/// A failure while the repository is checked, a command runs or
/// configuration paths are copied stops the run with a context that names
/// the step.
pub proof fn lemma_step_failures_carry_context(s: Session, cause: String)
    requires
        s.stage is ProbingRepo || s.stage is Running || s.stage is CheckingSource
            || s.stage is CheckingTarget || s.stage is NotingConfig || s.stage is CopyingConfig,
    ensures
        s.transition(Event::Failed(cause)).1 matches ActionView::Abort { context: Some(c), cause: r }
            && r == cause@ && c == match s.stage {
            Stage::ProbingRepo => probe_failure_context(),
            Stage::Running(k) => failure_context(k),
            _ => copy_failure_context(),
        },
{
}

/// The run ends exactly when the session finishes or aborts.
pub proof fn lemma_ends_with_finish_or_abort(s: Session, e: Event)
    ensures
        s.transition(e).0 == Stage::Over <==> (s.transition(e).1 is Finish || s.transition(
            e,
        ).1 is Abort),
{
}

/// How far along a run with `n` configuration paths a stage is.
pub open spec fn progress(stage: Stage, n: nat) -> nat {
    let at = |k: usize| if k < n { k as nat } else { n };
    match stage {
        Stage::Start => 0,
        Stage::ProbingRepo => 1,
        Stage::Running(CommandStep::CreateRepo) => 2,
        Stage::CheckingDir => 3,
        Stage::NotingClone | Stage::Running(CommandStep::CloneRepo) => 4,
        Stage::CheckingManifest => 5,
        Stage::NotingInit | Stage::Running(CommandStep::InitProject) => 6,
        Stage::CheckingSource(k) => 7 + 4 * at(k),
        Stage::CheckingTarget(k) => 8 + 4 * at(k),
        Stage::NotingConfig(k) | Stage::CopyingConfig(k) => 9 + 4 * at(k),
        Stage::Running(CommandStep::TestProject) => 11 + 4 * n,
        Stage::Running(CommandStep::AddFiles) => 12 + 4 * n,
        Stage::Running(CommandStep::Commit) => 13 + 4 * n,
        Stage::Running(CommandStep::Push) => 14 + 4 * n,
        Stage::ReadingClock => 15 + 4 * n,
        Stage::ReadingName => 16 + 4 * n,
        Stage::Thanking => 17 + 4 * n,
        Stage::Over => 18 + 4 * n,
    }
}

/// The next configuration path is never before the index it is looked for
/// from.
proof fn lemma_next_config_not_before(c: CreateRustGithubRepo, j: int)
    requires
        0 <= j,
    ensures
        j <= next_config(c, j) || next_config(c, j) == c.configs@.len(),
        next_config(c, j) <= c.configs@.len() || j > c.configs@.len(),
    decreases c.configs@.len() - j,
{
    if j < c.configs@.len() && c.configs@[j]@.len() == 0 {
        lemma_next_config_not_before(c, j + 1);
    }
}

/// The run only moves forward: each event takes a session that has not
/// ended to a stage further along, and no stage is further along than the
/// end. So a run with `n` configuration paths ends after at most `19 + 4 * n`
/// steps, and no step is taken twice.
pub proof fn lemma_run_moves_forward(s: Session, e: Event)
    requires
        s.config.configs@.len() <= usize::MAX,
    ensures
        s.stage != Stage::Over ==> progress(s.transition(e).0, s.config.configs@.len())
            > progress(s.stage, s.config.configs@.len()),
        progress(s.transition(e).0, s.config.configs@.len()) <= 18 + 4 * s.config.configs@.len(),
{
    lemma_next_config_not_before(s.config, 0);
    match s.stage {
        Stage::NotingConfig(k) | Stage::CopyingConfig(k) => {
            lemma_next_config_not_before(s.config, k + 1);
        },
        _ => {},
    }
}

} // verus!
