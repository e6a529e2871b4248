use agentrix::api::greeting;
use agentrix::error::AgentrixError;
use agentrix::github::{summarize, Assignee, IssueSummary, PullSummary};
use agentrix::paths::{default_worktrees_root_for_home, join};
use agentrix::startup::{format_startup_message, u16_to_decimal};

#[test]
fn formats_startup_message() {
    let message = format_startup_message("127.0.0.1", 4567, "/tmp");
    assert_eq!(
        message,
        "Agentrix server listening on http://127.0.0.1:4567 (workdir: /tmp)"
    );
}

#[test]
fn renders_ports_in_decimal() {
    assert_eq!(u16_to_decimal(0), "0");
    assert_eq!(u16_to_decimal(7), "7");
    assert_eq!(u16_to_decimal(4567), "4567");
    assert_eq!(u16_to_decimal(65535), "65535");
}

#[test]
fn default_worktrees_root_uses_home_environment_variable() {
    let root = default_worktrees_root_for_home("/home/tester");
    assert_eq!(root, "/home/tester/.agentrix/worktrees");
}

#[test]
fn joins_path_components_with_a_separator() {
    assert_eq!(join("base", "child"), "base/child");
    assert_eq!(join("", "child"), "/child");
}

#[test]
fn returns_default_greeting() {
    let response = greeting();
    assert_eq!(response.message, "Hello, world!");
}

#[test]
fn greeting_error_has_its_message() {
    assert_eq!(
        AgentrixError::GreetingUnavailable.message(),
        "greeting is currently unavailable"
    );
}

#[test]
fn summarize_counts_issues_and_pulls() {
    let issues = vec![
        IssueSummary {
            number: 1,
            title: "first".to_string(),
            html_url: "https://example.test/1".to_string(),
            labels: vec!["bug".to_string()],
            assignee: None,
        },
        IssueSummary {
            number: 2,
            title: "second".to_string(),
            html_url: "https://example.test/2".to_string(),
            labels: vec![],
            assignee: Some(Assignee { login: "dev".to_string(), avatar_url: None }),
        },
    ];
    let pulls = vec![PullSummary {
        number: 3,
        title: "third".to_string(),
        html_url: "https://example.test/3".to_string(),
        labels: vec![],
        user: Assignee { login: "dev".to_string(), avatar_url: None },
    }];
    let summary = summarize(issues, pulls);
    assert_eq!(summary.open_issues_count, 2);
    assert_eq!(summary.open_prs_count, 1);
    assert_eq!(summary.issues.len(), 2);
    assert_eq!(summary.pull_requests.len(), 1);
}
