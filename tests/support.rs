use create_rust_github_repo::support::{
    get_new_issue_url, get_option_name_from_field_name, support_link_is_due, support_message_lines,
};
use create_rust_github_repo::{display_message_box, CreateRustGithubRepo, SUPPORT_LINK_FIELD_NAME};

fn strings(lines: &[&str]) -> Vec<String> {
    lines.iter().map(|s| s.to_string()).collect()
}

#[test]
fn test_support_link_probability_name() {
    let cmd = CreateRustGithubRepo::default();
    let _ = cmd.support_link_probability(0u64);
    assert_eq!("support_link_probability", SUPPORT_LINK_FIELD_NAME);
}

#[test]
fn message_box_pads_to_widest() {
    let rows = display_message_box(&strings(&["ab", "c"]));
    assert_eq!(rows, strings(&["++++++", "+ ab +", "+ c  +", "++++++"]));
}

#[test]
fn message_box_of_nothing_is_empty() {
    assert!(display_message_box(&Vec::new()).is_empty());
}

#[test]
fn message_box_counts_bytes() {
    let rows = display_message_box(&strings(&["é", "abc", ""]));
    assert_eq!(rows, strings(&["+++++++", "+ é  +", "+ abc +", "+     +", "+++++++"]));
}

#[test]
fn issue_url_for_github() {
    assert_eq!(
        get_new_issue_url("https://github.com/owner/repo"),
        Some("https://github.com/owner/repo/issues/new".to_string())
    );
    assert_eq!(get_new_issue_url("https://gitlab.com/owner/repo"), None);
    assert_eq!(get_new_issue_url("https://github.com"), None);
    assert_eq!(get_new_issue_url(""), None);
}

#[test]
fn option_name_from_field() {
    assert_eq!(get_option_name_from_field_name(SUPPORT_LINK_FIELD_NAME), "--support-link-probability");
    assert_eq!(get_option_name_from_field_name("dry_run"), "--dry-run");
    assert_eq!(get_option_name_from_field_name("name"), "--name");
}

#[test]
fn support_link_due_one_in_n() {
    assert!(!support_link_is_due(0, 0));
    assert!(!support_link_is_due(0, 12));
    assert!(support_link_is_due(1, 0));
    assert!(support_link_is_due(1, 17));
    assert!(!support_link_is_due(3, 7));
    assert!(support_link_is_due(3, 9));
}

#[test]
fn support_message_text() {
    let lines = support_message_lines("tool", "https://github.com/o/r/issues/new");
    assert_eq!(lines.len(), 9);
    assert_eq!(lines[0], "+".repeat(54));
    assert_eq!(lines[2], format!("+ Thank you for using tool!{} +", " ".repeat(25)));
    assert_eq!(lines[5], "+ Open an issue at https://github.com/o/r/issues/new +");
    assert_eq!(lines[7], "+".repeat(54));
    assert_eq!(lines[8], "The message above can be disabled with --support-link-probability option");
}
