use agentrix::worktree::sanitize_branch_name;

#[test]
fn sanitizes_branch_names() {
    assert_eq!(sanitize_branch_name("feat/new-feature"), "feat_new-feature");
    assert_eq!(sanitize_branch_name("fix/horrible-bug"), "fix_horrible-bug");
    assert_eq!(sanitize_branch_name("weird chars!*"), "weird_chars__");
    assert_eq!(sanitize_branch_name("  spaced "), "spaced");
}

#[test]
fn sanitize_maps_example_branch_with_space_and_bang() {
    assert_eq!(sanitize_branch_name("a/b c!"), "a_b_c_");
}

#[test]
fn sanitize_keeps_ascii_letters_digits_and_hyphens() {
    assert_eq!(sanitize_branch_name("release-2024A"), "release-2024A");
}

#[test]
fn sanitize_of_whitespace_only_is_empty() {
    assert_eq!(sanitize_branch_name("   "), "");
    assert_eq!(sanitize_branch_name(""), "");
}
