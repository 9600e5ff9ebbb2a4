use create_rust_github_repo::{replace, replace_all, replace_args};

fn subs(pairs: &[(&str, &str)]) -> Vec<(String, String)> {
    pairs.iter().map(|(k, v)| (k.to_string(), v.to_string())).collect()
}

#[test]
fn replace_every_occurrence() {
    assert_eq!(replace("a-b-c", "-", "+"), "a+b+c");
    assert_eq!(replace("{{name}} and {{name}}", "{{name}}", "x"), "x and x");
}

#[test]
fn replace_leftmost_without_overlap() {
    assert_eq!(replace("aaa", "aa", "b"), "ba");
    assert_eq!(replace("aaaa", "aa", "b"), "bb");
}

#[test]
fn replace_empty_pattern_like_std() {
    assert_eq!(replace("ab", "", "X"), "ab".replace("", "X"));
    assert_eq!(replace("ab", "", "X"), "XaXbX");
    assert_eq!(replace("", "", "X"), "X");
}

#[test]
fn replace_absent_pattern_keeps_text() {
    assert_eq!(replace("cargo test", "{{dir}}", "/tmp"), "cargo test");
    assert_eq!(replace("", "x", "y"), "");
}

#[test]
fn replace_non_ascii() {
    assert_eq!(replace("héllo wörld", "ö", "oe"), "héllo woerld");
    assert_eq!(replace("日本日本", "本", "x"), "日x日x");
}

#[test]
fn replace_all_name_and_dir() {
    let s = subs(&[("{{name}}", "my-project"), ("{{dir}}", "/home/me/my-project")]);
    assert_eq!(
        replace_all("gh repo clone {{name}} {{dir}}".to_string(), &s),
        "gh repo clone my-project /home/me/my-project"
    );
}

#[test]
fn replace_all_in_order() {
    let s = subs(&[("{{name}}", "{{dir}}"), ("{{dir}}", "d")]);
    assert_eq!(replace_all("{{name}}".to_string(), &s), "d");
    let s = subs(&[("{{dir}}", "d"), ("{{name}}", "{{dir}}")]);
    assert_eq!(replace_all("{{name}}".to_string(), &s), "{{dir}}");
}

#[test]
fn replace_all_without_substitutions() {
    assert_eq!(replace_all("git push".to_string(), &Vec::new()), "git push");
}

#[test]
fn replace_args_each() {
    let s = subs(&[("{{name}}", "n")]);
    let args = vec!["a{{name}}".to_string(), "b".to_string(), "{{name}}{{name}}".to_string()];
    assert_eq!(replace_args(args, &s), vec!["an".to_string(), "b".to_string(), "nn".to_string()]);
    assert_eq!(replace_args(Vec::new(), &s), Vec::<String>::new());
}
