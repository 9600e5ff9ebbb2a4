//! The settings of one run.
use vstd::prelude::*;
use vstd::string::*;

verus! {

/// What to create and how: the repository name, where it goes, the shell
/// that runs each step and the command template of each step. A template may
/// hold `{{name}}` (the repository name) and `{{dir}}` (the directory the
/// repository is cloned to).
pub struct CreateRustGithubRepo {
    /// The repository name.
    pub name: String,
    /// The directory to clone to, repository name included.
    pub dir: Option<String>,
    /// The parent of the directory to clone to; `dir` takes precedence.
    pub workspace: Option<String>,
    /// The shell that runs the commands.
    pub shell_cmd: String,
    /// Arguments given to the shell before `-c` and the command.
    pub shell_args: Vec<String>,
    /// The project to copy configuration files from.
    pub copy_configs_from: Option<String>,
    /// Paths relative to `copy_configs_from` to copy; empty ones are skipped.
    pub configs: Vec<String>,
    pub repo_exists_cmd: String,
    pub repo_create_cmd: String,
    pub repo_clone_cmd: String,
    pub project_init_cmd: String,
    pub project_test_cmd: String,
    pub repo_add_args: String,
    pub repo_commit_args: String,
    pub repo_push_args: String,
    /// One run in this many shows the support message; 0 never shows it.
    pub support_link_probability: u64,
    /// Print the commands that change anything instead of running them.
    pub dry_run: bool,
}


impl Default for CreateRustGithubRepo {
    /// Empty names, paths and commands; no support message; a real run.
    fn default() -> (r: Self)
        ensures
            r.name@.len() == 0,
            r.dir is None,
            r.workspace is None,
            r.shell_cmd@.len() == 0,
            r.shell_args@.len() == 0,
            r.copy_configs_from is None,
            r.configs@.len() == 0,
            r.repo_exists_cmd@.len() == 0,
            r.repo_create_cmd@.len() == 0,
            r.repo_clone_cmd@.len() == 0,
            r.project_init_cmd@.len() == 0,
            r.project_test_cmd@.len() == 0,
            r.repo_add_args@.len() == 0,
            r.repo_commit_args@.len() == 0,
            r.repo_push_args@.len() == 0,
            r.support_link_probability == 0,
            !r.dry_run,
    {
        CreateRustGithubRepo {
            name: String::new(),
            dir: None,
            workspace: None,
            shell_cmd: String::new(),
            shell_args: Vec::new(),
            copy_configs_from: None,
            configs: Vec::new(),
            repo_exists_cmd: String::new(),
            repo_create_cmd: String::new(),
            repo_clone_cmd: String::new(),
            project_init_cmd: String::new(),
            project_test_cmd: String::new(),
            repo_add_args: String::new(),
            repo_commit_args: String::new(),
            repo_push_args: String::new(),
            support_link_probability: 0,
            dry_run: false,
        }
    }
}

impl CreateRustGithubRepo {
    /// These settings with `name` set to `value`.
    pub fn name(self, value: &str) -> (r: Self)
        ensures
            r.name@ == value@,
            r == (CreateRustGithubRepo { name: r.name, ..self }),
    {
        CreateRustGithubRepo { name: String::from_str(value), ..self }
    }

    /// These settings with `shell_cmd` set to `value`.
    pub fn shell_cmd(self, value: &str) -> (r: Self)
        ensures
            r.shell_cmd@ == value@,
            r == (CreateRustGithubRepo { shell_cmd: r.shell_cmd, ..self }),
    {
        CreateRustGithubRepo { shell_cmd: String::from_str(value), ..self }
    }

    /// These settings with `repo_exists_cmd` set to `value`.
    pub fn repo_exists_cmd(self, value: &str) -> (r: Self)
        ensures
            r.repo_exists_cmd@ == value@,
            r == (CreateRustGithubRepo { repo_exists_cmd: r.repo_exists_cmd, ..self }),
    {
        CreateRustGithubRepo { repo_exists_cmd: String::from_str(value), ..self }
    }

    /// These settings with `repo_create_cmd` set to `value`.
    pub fn repo_create_cmd(self, value: &str) -> (r: Self)
        ensures
            r.repo_create_cmd@ == value@,
            r == (CreateRustGithubRepo { repo_create_cmd: r.repo_create_cmd, ..self }),
    {
        CreateRustGithubRepo { repo_create_cmd: String::from_str(value), ..self }
    }

    /// These settings with `repo_clone_cmd` set to `value`.
    pub fn repo_clone_cmd(self, value: &str) -> (r: Self)
        ensures
            r.repo_clone_cmd@ == value@,
            r == (CreateRustGithubRepo { repo_clone_cmd: r.repo_clone_cmd, ..self }),
    {
        CreateRustGithubRepo { repo_clone_cmd: String::from_str(value), ..self }
    }

    /// These settings with `project_init_cmd` set to `value`.
    pub fn project_init_cmd(self, value: &str) -> (r: Self)
        ensures
            r.project_init_cmd@ == value@,
            r == (CreateRustGithubRepo { project_init_cmd: r.project_init_cmd, ..self }),
    {
        CreateRustGithubRepo { project_init_cmd: String::from_str(value), ..self }
    }

    /// These settings with `project_test_cmd` set to `value`.
    pub fn project_test_cmd(self, value: &str) -> (r: Self)
        ensures
            r.project_test_cmd@ == value@,
            r == (CreateRustGithubRepo { project_test_cmd: r.project_test_cmd, ..self }),
    {
        CreateRustGithubRepo { project_test_cmd: String::from_str(value), ..self }
    }

    /// These settings with `repo_add_args` set to `value`.
    pub fn repo_add_args(self, value: &str) -> (r: Self)
        ensures
            r.repo_add_args@ == value@,
            r == (CreateRustGithubRepo { repo_add_args: r.repo_add_args, ..self }),
    {
        CreateRustGithubRepo { repo_add_args: String::from_str(value), ..self }
    }

    /// These settings with `repo_commit_args` set to `value`.
    pub fn repo_commit_args(self, value: &str) -> (r: Self)
        ensures
            r.repo_commit_args@ == value@,
            r == (CreateRustGithubRepo { repo_commit_args: r.repo_commit_args, ..self }),
    {
        CreateRustGithubRepo { repo_commit_args: String::from_str(value), ..self }
    }

    /// These settings with `repo_push_args` set to `value`.
    pub fn repo_push_args(self, value: &str) -> (r: Self)
        ensures
            r.repo_push_args@ == value@,
            r == (CreateRustGithubRepo { repo_push_args: r.repo_push_args, ..self }),
    {
        CreateRustGithubRepo { repo_push_args: String::from_str(value), ..self }
    }

    /// These settings with `dir` set to `value`.
    pub fn dir(self, value: Option<String>) -> (r: Self)
        ensures
            r == (CreateRustGithubRepo { dir: value, ..self }),
    {
        CreateRustGithubRepo { dir: value, ..self }
    }

    /// These settings with `workspace` set to `value`.
    pub fn workspace(self, value: Option<String>) -> (r: Self)
        ensures
            r == (CreateRustGithubRepo { workspace: value, ..self }),
    {
        CreateRustGithubRepo { workspace: value, ..self }
    }

    /// These settings with `copy_configs_from` set to `value`.
    pub fn copy_configs_from(self, value: Option<String>) -> (r: Self)
        ensures
            r == (CreateRustGithubRepo { copy_configs_from: value, ..self }),
    {
        CreateRustGithubRepo { copy_configs_from: value, ..self }
    }

    /// These settings with `shell_args` set to `value`.
    pub fn shell_args(self, value: Vec<String>) -> (r: Self)
        ensures
            r == (CreateRustGithubRepo { shell_args: value, ..self }),
    {
        CreateRustGithubRepo { shell_args: value, ..self }
    }

    /// These settings with `configs` set to `value`.
    pub fn configs(self, value: Vec<String>) -> (r: Self)
        ensures
            r == (CreateRustGithubRepo { configs: value, ..self }),
    {
        CreateRustGithubRepo { configs: value, ..self }
    }

    /// These settings with `support_link_probability` set to `value`.
    pub fn support_link_probability(self, value: u64) -> (r: Self)
        ensures
            r == (CreateRustGithubRepo { support_link_probability: value, ..self }),
    {
        CreateRustGithubRepo { support_link_probability: value, ..self }
    }

    /// These settings with `dry_run` set to `value`.
    pub fn dry_run(self, value: bool) -> (r: Self)
        ensures
            r == (CreateRustGithubRepo { dry_run: value, ..self }),
    {
        CreateRustGithubRepo { dry_run: value, ..self }
    }
}

} // verus!
