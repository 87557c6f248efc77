use github_scopes_rs::oauth::parse_scope_header;

#[test]
fn single_scope_without_commas() {
    assert_eq!(parse_scope_header("repo"), vec!["repo".to_string()]);
}

#[test]
fn empty_value_yields_one_empty_entry() {
    assert_eq!(parse_scope_header(""), vec!["".to_string()]);
}

#[test]
fn segments_are_split_on_commas_and_trimmed() {
    assert_eq!(
        parse_scope_header("repo, workflow, read:org"),
        vec!["repo".to_string(), "workflow".to_string(), "read:org".to_string()]
    );
}

#[test]
fn surrounding_whitespace_is_removed() {
    assert_eq!(
        parse_scope_header("  repo \t,\n workflow \r"),
        vec!["repo".to_string(), "workflow".to_string()]
    );
}

#[test]
fn inner_whitespace_is_kept() {
    assert_eq!(parse_scope_header(" a b "), vec!["a b".to_string()]);
}

#[test]
fn empty_segments_are_kept() {
    assert_eq!(
        parse_scope_header("a,,b,"),
        vec!["a".to_string(), "".to_string(), "b".to_string(), "".to_string()]
    );
}

#[test]
fn whitespace_only_value_yields_one_empty_entry() {
    assert_eq!(parse_scope_header("   "), vec!["".to_string()]);
}
