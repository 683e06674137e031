//! Records that the GitHub service hands back.

use vstd::prelude::*;
use crate::json::JsonValue;

verus! {

#[derive(Debug)]
pub struct GitHubUser {
    pub id: u64,
    pub login: String,
    pub name: Option<String>,
    pub email: Option<String>,
    pub avatar_url: String,
}

#[derive(Debug)]
pub struct GitHubRepository {
    pub id: u64,
    pub name: String,
    pub full_name: String,
    pub owner: GitHubUser,
    pub default_branch: String,
    pub clone_url: String,
    pub ssh_url: String,
}

#[derive(Debug)]
pub struct GitHubLabel {
    pub id: u64,
    pub name: String,
    pub color: String,
    pub description: Option<String>,
}

#[derive(Debug)]
pub struct GitHubIssue {
    pub id: u64,
    pub number: u64,
    pub title: String,
    pub body: Option<String>,
    pub state: String,
    pub labels: Vec<GitHubLabel>,
    pub assignee: Option<GitHubUser>,
    pub user: GitHubUser,
    pub html_url: String,
    pub created_at: String,
    pub updated_at: String,
}

#[derive(Debug)]
pub struct GitHubBranch {
    pub label: String,
    pub ref_name: String,
    pub sha: String,
    pub repo: GitHubRepository,
}

#[derive(Debug)]
pub struct GitHubPullRequest {
    pub id: u64,
    pub number: u64,
    pub title: String,
    pub body: Option<String>,
    pub state: String,
    pub draft: bool,
    pub head: GitHubBranch,
    pub base: GitHubBranch,
    pub user: GitHubUser,
    pub html_url: String,
    pub mergeable: Option<bool>,
    pub created_at: String,
    pub updated_at: String,
}

#[derive(Debug)]
pub struct GitHubProjectContent {
    pub id: String,
    pub title: String,
    pub body: Option<String>,
    pub url: String,
    pub content_type: String,
}

#[derive(Debug)]
pub struct GitHubProjectField {
    pub id: String,
    pub name: String,
    pub data_type: String,
}

#[derive(Debug)]
pub struct GitHubProjectFieldValue {
    pub field: GitHubProjectField,
    pub value: Option<JsonValue>,
}

#[derive(Debug)]
pub struct GitHubProjectItem {
    pub id: String,
    pub content: Option<GitHubProjectContent>,
    pub field_values: Option<Vec<GitHubProjectFieldValue>>,
}

/// What a workflow needs to know of a pull request.
#[derive(Debug)]
pub struct PullRequestSummary {
    pub number: u64,
    pub url: String,
    pub title: String,
    pub draft: bool,
}

impl GitHubPullRequest {
    /// The number, address, title and draft flag of this pull request.
    pub fn summary(self) -> (r: PullRequestSummary)
        ensures
            r == (PullRequestSummary { number: self.number, url: self.html_url, title: self.title, draft: self.draft }),
    {
        PullRequestSummary { number: self.number, url: self.html_url, title: self.title, draft: self.draft }
    }
}

} // verus!
