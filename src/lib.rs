//! Bootstraps a new repository: checks whether it exists remotely, creates and
//! clones it, initialises a project in it, copies configuration files from an
//! existing project, then tests, adds, commits and pushes.
//!
//! The library holds the decisions; a driver performs the outside work that
//! each step asks for and reports back what happened.
pub mod config;
pub mod paths;
pub mod session;
pub mod substitution;
pub mod support;

pub use config::CreateRustGithubRepo;
pub use session::{Action, Event, Session, Stage};
pub use substitution::{replace, replace_all, replace_args};
pub use support::{
    display_message_box, get_new_issue_url, get_option_name_from_field_name, REPOSITORY,
    SUPPORT_LINK_FIELD_NAME,
};
