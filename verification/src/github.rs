//! The data model of the read-only GitHub summary: plain values that the
//! HTTP client fills in and the rest of the service passes around.

use vstd::prelude::*;

verus! {

/// A user an issue or pull request points at.
#[derive(Debug, PartialEq, Eq)]
pub struct Assignee {
    pub login: String,
    pub avatar_url: Option<String>,
}

/// One open issue, reduced to what the service presents.
#[derive(Debug, PartialEq, Eq)]
pub struct IssueSummary {
    pub number: u32,
    pub title: String,
    pub html_url: String,
    pub labels: Vec<String>,
    pub assignee: Option<Assignee>,
}

/// One open pull request, reduced to what the service presents.
#[derive(Debug, PartialEq, Eq)]
pub struct PullSummary {
    pub number: u32,
    pub title: String,
    pub html_url: String,
    pub labels: Vec<String>,
    pub user: Assignee,
}

/// The open issues and pull requests of a repository, with their counts.
#[derive(Debug, PartialEq, Eq)]
pub struct RepoSummary {
    pub open_issues_count: u32,
    pub open_prs_count: u32,
    pub issues: Vec<IssueSummary>,
    pub pull_requests: Vec<PullSummary>,
}

/// A full issue, as the detail endpoint presents it.
#[derive(Debug, PartialEq, Eq)]
pub struct IssueDetail {
    pub number: u32,
    pub title: String,
    pub body: String,
    pub html_url: String,
    pub labels: Vec<String>,
    pub assignee: Option<Assignee>,
    pub user: Assignee,
    pub state: String,
}

/// A full pull request, as the detail endpoint presents it.
#[derive(Debug, PartialEq, Eq)]
pub struct PullDetail {
    pub number: u32,
    pub title: String,
    pub body: String,
    pub html_url: String,
    pub labels: Vec<String>,
    pub user: Assignee,
    pub state: String,
}

/// Packs fetched issues and pull requests into a summary whose counts are
/// exactly the lengths of the two lists.
pub fn summarize(issues: Vec<IssueSummary>, pulls: Vec<PullSummary>) -> (r: RepoSummary)
    requires
        issues@.len() <= u32::MAX,
        pulls@.len() <= u32::MAX,
    ensures
        r.open_issues_count == issues@.len(),
        r.open_prs_count == pulls@.len(),
        r.issues == issues,
        r.pull_requests == pulls,
{
    let open_issues_count = issues.len() as u32;
    let open_prs_count = pulls.len() as u32;
    RepoSummary { open_issues_count, open_prs_count, issues, pull_requests: pulls }
}

} // verus!
