use agentrix::repo_url::{parse_repository_url, ParseError};

#[test]
fn parses_https_repository_url() {
    let repo = parse_repository_url("https://github.com/afx-hedge-fund/platform.git")
        .expect("valid url");
    assert_eq!(repo.workspace, "afx-hedge-fund");
    assert_eq!(repo.repository, "platform");
}

#[test]
fn parses_plain_workspace_repository_path() {
    let repo = parse_repository_url("workspace/repo").expect("valid path");
    assert_eq!(repo.workspace, "workspace");
    assert_eq!(repo.repository, "repo");
}

#[test]
fn trims_trailing_slashes_and_whitespace_in_repository_url() {
    let repo = parse_repository_url("  https://github.com/workspace/repo.git///  ")
        .expect("valid url");
    assert_eq!(repo.workspace, "workspace");
    assert_eq!(repo.repository, "repo");
}

#[test]
fn parses_ssh_repository_url() {
    let repo = parse_repository_url("git@github.com:afx-hedge-fund/platform.git").unwrap();
    assert_eq!(repo.workspace, "afx-hedge-fund");
    assert_eq!(repo.repository, "platform");
}

#[test]
fn rejects_invalid_repository_url() {
    let err = parse_repository_url("https://github.com/invalid").unwrap_err();
    assert!(
        err.message().contains("workspace"),
        "expected workspace/repository error"
    );
}

#[test]
fn rejects_empty_repository_url() {
    let err = parse_repository_url("   ").unwrap_err();
    assert!(err.message().contains("cannot be empty"));
}

#[test]
fn reports_empty_input_as_its_own_error() {
    assert_eq!(parse_repository_url("   ").unwrap_err(), ParseError::EmptyInput);
    assert_eq!(parse_repository_url(" /// ").unwrap_err(), ParseError::EmptyInput);
}

#[test]
fn rejects_ssh_url_without_colon() {
    assert_eq!(
        parse_repository_url("git@github.com").unwrap_err(),
        ParseError::InvalidSshUrl
    );
}

#[test]
fn rejects_scheme_url_without_path() {
    assert_eq!(
        parse_repository_url("https://github.com").unwrap_err(),
        ParseError::MissingPath
    );
}

#[test]
fn rejects_single_segment_path() {
    assert_eq!(
        parse_repository_url("onlyrepo").unwrap_err(),
        ParseError::MissingWorkspaceOrRepository
    );
}

#[test]
fn rejects_repository_that_is_only_a_git_suffix() {
    assert_eq!(
        parse_repository_url("workspace/.git").unwrap_err(),
        ParseError::EmptyRepositoryName
    );
}

#[test]
fn strips_every_trailing_git_suffix() {
    let repo = parse_repository_url("workspace/repo.git.git").unwrap();
    assert_eq!(repo.repository, "repo");
}

#[test]
fn drops_blank_path_segments() {
    let repo = parse_repository_url("https://host//workspace//repo//").unwrap();
    assert_eq!(repo.workspace, "workspace");
    assert_eq!(repo.repository, "repo");
}

#[test]
fn keeps_workspace_extension_untouched() {
    let repo = parse_repository_url("https://host/deep/path/ws.git/repo").unwrap();
    assert_eq!(repo.workspace, "ws.git");
    assert_eq!(repo.repository, "repo");
}
