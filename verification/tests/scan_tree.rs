use agentrix::scan::{
    repositories_from_dir, workspaces_from_dir, worktrees_for_repo, DirEntryInfo, RepoListing,
    ScanInput, WorkspaceListing,
};

fn entry(name: &str, is_dir: bool) -> DirEntryInfo {
    DirEntryInfo { name: name.to_string(), is_dir }
}

fn repo_dir(name: &str, worktree_entries: Option<Vec<DirEntryInfo>>) -> RepoListing {
    RepoListing { name: name.to_string(), is_dir: true, worktree_entries }
}

fn repo_file(name: &str) -> RepoListing {
    RepoListing { name: name.to_string(), is_dir: false, worktree_entries: None }
}

fn workspace_dir(name: &str, repo_entries: Vec<RepoListing>) -> WorkspaceListing {
    WorkspaceListing { name: name.to_string(), is_dir: true, repo_entries }
}

#[test]
fn builds_workspaces_from_directory_structure() {
    let input = ScanInput {
        root_entries: Some(vec![workspace_dir(
            "vultuk",
            vec![repo_dir("simonskinner_me", None)],
        )]),
    };
    let workspaces = workspaces_from_dir(&input);
    assert_eq!(workspaces.len(), 1);
    assert_eq!(workspaces[0].name, "vultuk");
    assert_eq!(workspaces[0].repositories.len(), 1);
    assert_eq!(workspaces[0].repositories[0].name, "simonskinner_me");
}

#[test]
fn workspaces_from_dir_handles_missing_path() {
    let input = ScanInput { root_entries: None };
    let workspaces = workspaces_from_dir(&input);
    assert!(workspaces.is_empty());
}

#[test]
fn repositories_skip_non_directory_entries() {
    let entries = vec![repo_file("README.md"), repo_dir("repo_a", None)];
    let repos = repositories_from_dir(&entries);
    assert_eq!(repos.len(), 1);
    assert_eq!(repos[0].name, "repo_a");
}

#[test]
fn workspaces_are_sorted_alphabetically() {
    let input = ScanInput {
        root_entries: Some(vec![
            workspace_dir("z_workspace", vec![repo_dir("repo_one", None)]),
            workspace_dir("a_workspace", vec![repo_dir("repo_two", None)]),
        ]),
    };
    let workspaces = workspaces_from_dir(&input);
    assert_eq!(workspaces[0].name, "a_workspace");
    assert_eq!(workspaces[1].name, "z_workspace");
}

#[test]
fn repositories_are_sorted_alphabetically() {
    let entries = vec![repo_dir("b_repo", None), repo_dir("a_repo", None)];
    let repos = repositories_from_dir(&entries);
    assert_eq!(repos[0].name, "a_repo");
    assert_eq!(repos[1].name, "b_repo");
}

#[test]
fn discovers_worktrees_from_agentrix_root() {
    let worktree_entries = Some(vec![
        entry("feat_one", true),
        entry("feat_two", true),
        entry("README.txt", false),
    ]);
    let input = ScanInput {
        root_entries: Some(vec![workspace_dir(
            "org",
            vec![repo_dir("repo", worktree_entries)],
        )]),
    };
    let workspaces = workspaces_from_dir(&input);
    assert_eq!(workspaces.len(), 1);
    let repo = &workspaces[0].repositories[0];
    assert_eq!(repo.worktrees.len(), 2);
    assert_eq!(repo.worktrees[0].name, "feat_one");
    assert_eq!(repo.worktrees[1].name, "feat_two");
}

#[test]
fn missing_worktrees_root_is_treated_as_empty() {
    let input = ScanInput {
        root_entries: Some(vec![workspace_dir("org", vec![repo_dir("repo", None)])]),
    };
    let workspaces = workspaces_from_dir(&input);
    assert_eq!(workspaces[0].repositories[0].worktrees.len(), 0);
}

#[test]
fn worktrees_for_repo_sorts_directories_by_name() {
    let listing = Some(vec![
        entry("zeta", true),
        entry("alpha", true),
        entry("notes.txt", false),
    ]);
    let worktrees = worktrees_for_repo(&listing);
    assert_eq!(worktrees.len(), 2);
    assert_eq!(worktrees[0].name, "alpha");
    assert_eq!(worktrees[1].name, "zeta");
}

#[test]
fn scans_two_workspaces_end_to_end() {
    let input = ScanInput {
        root_entries: Some(vec![
            workspace_dir(
                "orgA",
                vec![repo_dir("repoX", Some(vec![entry("featA", true)]))],
            ),
            workspace_dir("orgB", vec![repo_dir("repoY", None)]),
        ]),
    };
    let workspaces = workspaces_from_dir(&input);
    assert_eq!(workspaces.len(), 2);
    assert_eq!(workspaces[0].name, "orgA");
    assert_eq!(workspaces[0].repositories.len(), 1);
    assert_eq!(workspaces[0].repositories[0].name, "repoX");
    assert!(workspaces[0].repositories[0].plans.is_empty());
    assert_eq!(workspaces[0].repositories[0].worktrees.len(), 1);
    assert_eq!(workspaces[0].repositories[0].worktrees[0].name, "featA");
    assert!(workspaces[0].repositories[0].worktrees[0].terminals.is_empty());
    assert_eq!(workspaces[1].name, "orgB");
    assert_eq!(workspaces[1].repositories.len(), 1);
    assert_eq!(workspaces[1].repositories[0].name, "repoY");
    assert!(workspaces[1].repositories[0].worktrees.is_empty());
}

#[test]
fn skips_files_at_the_workspace_level() {
    let input = ScanInput {
        root_entries: Some(vec![
            WorkspaceListing {
                name: "LICENSE".to_string(),
                is_dir: false,
                repo_entries: vec![],
            },
            workspace_dir("org", vec![]),
        ]),
    };
    let workspaces = workspaces_from_dir(&input);
    assert_eq!(workspaces.len(), 1);
    assert_eq!(workspaces[0].name, "org");
    assert!(workspaces[0].repositories.is_empty());
}
