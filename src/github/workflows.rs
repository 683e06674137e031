//! The workflow engine. Each command runs as a state machine: the engine
//! names the next git or GitHub action, the caller performs it and hands back
//! what came of it, and the engine decides what follows. Nothing is cached
//! between commands, nothing is retried, and work already done is not undone
//! when a later step fails.

use vstd::prelude::*;
use crate::github::api::{GitHubProjectItem, PullRequestSummary};
use crate::mcp::protocol::GitHubCommand;

verus! {

/// The git operation that failed.
#[derive(Debug)]
pub enum GitOperation {
    CurrentBranch,
    Status,
    Commit,
    Push,
    Checkout,
    Pull,
}

/// Why a workflow stopped.
#[derive(Debug)]
pub enum WorkflowError {
    /// A merge was asked for while on the main branch.
    OnMainBranch { branch: String },
    /// No project number was given, found in the tracking document, or set
    /// in the environment.
    NoProjectNumber,
    /// A merge found no pull request for its branch.
    NoPullRequest { branch: String },
    /// The pre-merge checks of the pull request did not pass.
    ChecksFailed { number: u64, detail: String },
    /// A git command failed; `detail` is what it printed on standard error.
    Git { operation: GitOperation, detail: String },
    /// The GitHub service answered with an error.
    GitHubApi { detail: String },
    /// No credential for the GitHub service.
    Authentication { detail: String },
    /// The caller answered an action with an event that does not fit it.
    UnexpectedEvent,
}

/// What a finished workflow reports.
#[derive(Debug)]
#[allow(inconsistent_fields)]
pub enum WorkflowOutcome {
    /// A push was asked for on the main branch; nothing was done.
    PushOnMainBranch { branch: String, main_branch: String },
    /// After the optional commit the working tree still had changes; nothing
    /// was pushed.
    UncommittedChanges { changes: Vec<String> },
    /// The branch was pushed; the pull request, if one was found.
    Pushed { branch: String, pull_request: Option<PullRequestSummary>, ready_for_review: bool },
    /// The items of a project, for the scan command.
    TasksScanned {
        project_number: String,
        items: Vec<GitHubProjectItem>,
        filter_type: Option<String>,
        status: Option<String>,
    },
    /// The pull request was merged and the main branch is checked out.
    /// `branch_deleted` and `work_folder_cleaned` say whether the local
    /// branch was deleted and the work folder cleaned.
    Merged {
        pull_request: PullRequestSummary,
        main_branch: String,
        branch_deleted: bool,
        work_folder_cleaned: bool,
    },
    /// The state of the working tree, for the status resource.
    WorkingTree { branch: String, changes: Vec<String>, pull_request: Option<PullRequestSummary> },
    /// The items of a project, for the tasks resource.
    ProjectTasks { project_number: String, items: Vec<GitHubProjectItem> },
}

/// The status tag of a result.
#[derive(Debug, PartialEq, Eq, Structural)]
pub enum ResultStatus {
    Success,
    Warning,
    Error,
}

impl WorkflowOutcome {
    pub open spec fn status(&self) -> ResultStatus {
        match self {
            WorkflowOutcome::PushOnMainBranch { .. } => ResultStatus::Warning,
            WorkflowOutcome::UncommittedChanges { .. } => ResultStatus::Error,
            _ => ResultStatus::Success,
        }
    }

    pub fn result_status(&self) -> (r: ResultStatus)
        ensures
            r == self.status(),
    {
        match self {
            WorkflowOutcome::PushOnMainBranch { .. } => ResultStatus::Warning,
            WorkflowOutcome::UncommittedChanges { .. } => ResultStatus::Error,
            _ => ResultStatus::Success,
        }
    }
}

/// What the caller is asked to do next.
#[derive(Debug)]
pub enum Action {
    /// Report the checked-out branch: `Text`, or `Failed`.
    CurrentBranch,
    /// Report the remote's main branch: `Text` (a default where the remote
    /// cannot be read).
    MainBranch,
    /// Report the changed paths: `Lines` (none when clean), or `Failed`.
    Status,
    /// Report whether the GitHub service has a credential: `Done`,
    /// `Unauthenticated`, or `Failed`.
    Authenticate,
    /// Stage every change and commit it with this message: `Done` or `Failed`.
    Commit(String),
    /// Push this branch to the remote: `Done` or `Failed`.
    Push(String),
    /// Check out this branch: `Done` or `Failed`.
    Checkout(String),
    /// Pull this branch from the remote: `Done` or `Failed`.
    Pull(String),
    /// Delete this local branch, best effort: `Done` or `Failed`; a failure
    /// is reported in the outcome, not as an error.
    DeleteBranch(String),
    /// Clean the scratch work folder, best effort: `Done` or `Failed`; a
    /// failure is reported in the outcome, not as an error.
    CleanWorkFolder,
    /// Look up the pull request of this branch: `PullRequest`,
    /// `NoPullRequest`, `Failed` or `Unauthenticated`.
    FindPullRequest(String),
    /// Run the pre-merge checks of the pull request of this number: `Done`,
    /// `Failed` or `Unauthenticated`.
    CheckPullRequest(u64),
    /// Merge the pull request of this number: `Done`, `Failed` or
    /// `Unauthenticated`.
    MergePullRequest(u64),
    /// Report the project number of the tracking document: `Text` or `Missing`.
    ReadTrackingDocument,
    /// Report the project number of the environment: `Text` or `Missing`.
    ReadDefaultProject,
    /// Fetch the items of this project: `Items`, `Failed` or `Unauthenticated`.
    FetchProjectItems(String),
    /// The workflow is over; its outcome is in the state.
    Finish,
}

impl Action {
    /// Whether the action changes the working tree, the remote or GitHub.
    pub open spec fn is_mutation(&self) -> bool {
        ||| self is Commit
        ||| self is Push
        ||| self is Checkout
        ||| self is Pull
        ||| self is DeleteBranch
        ||| self is MergePullRequest
        ||| self is CleanWorkFolder
    }
}

/// What came of an action.
#[derive(Debug)]
pub enum Event {
    Text(String),
    Lines(Vec<String>),
    Done,
    Failed(String),
    Missing,
    PullRequest(PullRequestSummary),
    NoPullRequest,
    Unauthenticated(String),
    Items(Vec<GitHubProjectItem>),
}

/// A push whose branch is known.
#[derive(Debug)]
pub struct PushPlan {
    pub branch: String,
    pub ready_for_review: bool,
}

/// A merge whose branch and main branch are known.
#[derive(Debug)]
pub struct MergePlan {
    pub branch: String,
    pub main_branch: String,
    pub delete_branch: bool,
    pub cleanup_work_folder: bool,
}

/// A project scan; `organize` tells the scan command from the tasks resource.
#[derive(Debug)]
pub struct ScanPlan {
    pub filter_type: Option<String>,
    pub status: Option<String>,
    pub organize: bool,
}

/// Where a workflow stands: each state names the answer it waits for.
#[derive(Debug)]
#[allow(inconsistent_fields)]
pub enum WorkflowState {
    PushBranch { message: Option<String>, ready_for_review: bool },
    PushMain { branch: String, message: Option<String>, ready_for_review: bool },
    PushCommit { plan: PushPlan },
    PushStatus { plan: PushPlan },
    PushRemote { plan: PushPlan },
    PushPullRequest { plan: PushPlan },
    ScanDocument { plan: ScanPlan },
    ScanDefault { plan: ScanPlan },
    ScanItems { project_number: String, plan: ScanPlan },
    MergeBranch { delete_branch: bool, cleanup_work_folder: bool },
    MergeMain { branch: String, delete_branch: bool, cleanup_work_folder: bool },
    MergeCredentials { plan: MergePlan },
    MergeStatus { plan: MergePlan },
    MergeCommit { plan: MergePlan },
    MergePush { plan: MergePlan },
    MergeFindPullRequest { plan: MergePlan },
    MergeChecking { plan: MergePlan, pull_request: PullRequestSummary },
    MergeMerging { plan: MergePlan, pull_request: PullRequestSummary },
    MergeCheckout { plan: MergePlan, pull_request: PullRequestSummary },
    MergePull { plan: MergePlan, pull_request: PullRequestSummary },
    MergeClean { plan: MergePlan, pull_request: PullRequestSummary },
    MergeDelete { plan: MergePlan, pull_request: PullRequestSummary, work_folder_cleaned: bool },
    TreeBranch,
    TreeStatus { branch: String },
    TreePullRequest { branch: String, changes: Vec<String> },
    Finished { outcome: Result<WorkflowOutcome, WorkflowError> },
}

/// The commit message of the changes that a merge finds uncommitted.
pub open spec fn final_changes_message(branch: Seq<char>) -> Seq<char> {
    "Final changes for "@ + branch
}

/// The state ends with `outcome` and the caller is told to finish.
pub open spec fn ends(t: WorkflowState, a: Action, outcome: Result<WorkflowOutcome, WorkflowError>) -> bool {
    t == (WorkflowState::Finished { outcome }) && a == Action::Finish
}

/// After the main branch is pulled and the work folder cleaned (or not): the
/// branch is deleted if asked for, else the merge is over.
pub open spec fn after_cleanup(
    plan: MergePlan,
    pull_request: PullRequestSummary,
    work_folder_cleaned: bool,
    t: WorkflowState,
    a: Action,
) -> bool {
    if plan.delete_branch {
        t == (WorkflowState::MergeDelete { plan, pull_request, work_folder_cleaned }) && a == Action::DeleteBranch(
            plan.branch,
        )
    } else {
        ends(t, a, Ok(WorkflowOutcome::Merged {
            pull_request,
            main_branch: plan.main_branch,
            branch_deleted: false,
            work_folder_cleaned,
        }))
    }
}

/// One step of the machine: in state `s`, on event `ev`, it moves to `t` and
/// asks for `a`.
pub open spec fn transition(s: WorkflowState, ev: Event, t: WorkflowState, a: Action) -> bool {
    let unexpected = ends(t, a, Err(WorkflowError::UnexpectedEvent));
    match s {
        WorkflowState::PushBranch { message, ready_for_review } => match ev {
            Event::Text(branch) => t == (WorkflowState::PushMain { branch, message, ready_for_review })
                && a == Action::MainBranch,
            Event::Failed(detail) => ends(t, a, Err(WorkflowError::Git { operation: GitOperation::CurrentBranch, detail })),
            _ => unexpected,
        },
        WorkflowState::PushMain { branch, message, ready_for_review } => match ev {
            Event::Text(main_branch) => if branch@ == main_branch@ {
                ends(t, a, Ok(WorkflowOutcome::PushOnMainBranch { branch, main_branch }))
            } else {
                match message {
                    Some(m) => t == (WorkflowState::PushCommit { plan: PushPlan { branch, ready_for_review } })
                        && a == Action::Commit(m),
                    None => t == (WorkflowState::PushStatus { plan: PushPlan { branch, ready_for_review } })
                        && a == Action::Status,
                }
            },
            _ => unexpected,
        },
        WorkflowState::PushCommit { plan } => match ev {
            Event::Done => t == (WorkflowState::PushStatus { plan }) && a == Action::Status,
            Event::Failed(detail) => ends(t, a, Err(WorkflowError::Git { operation: GitOperation::Commit, detail })),
            _ => unexpected,
        },
        WorkflowState::PushStatus { plan } => match ev {
            Event::Lines(changes) => if changes@.len() > 0 {
                ends(t, a, Ok(WorkflowOutcome::UncommittedChanges { changes }))
            } else {
                t == (WorkflowState::PushRemote { plan }) && a == Action::Push(plan.branch)
            },
            Event::Failed(detail) => ends(t, a, Err(WorkflowError::Git { operation: GitOperation::Status, detail })),
            _ => unexpected,
        },
        WorkflowState::PushRemote { plan } => match ev {
            Event::Done => t == (WorkflowState::PushPullRequest { plan }) && a == Action::FindPullRequest(plan.branch),
            Event::Failed(detail) => ends(t, a, Err(WorkflowError::Git { operation: GitOperation::Push, detail })),
            _ => unexpected,
        },
        WorkflowState::PushPullRequest { plan } => match ev {
            Event::PullRequest(pr) => ends(t, a, Ok(WorkflowOutcome::Pushed {
                branch: plan.branch,
                ready_for_review: plan.ready_for_review && pr.draft,
                pull_request: Some(pr),
            })),
            Event::NoPullRequest | Event::Failed(_) | Event::Unauthenticated(_) => ends(t, a, Ok(WorkflowOutcome::Pushed {
                branch: plan.branch,
                pull_request: None,
                ready_for_review: false,
            })),
            _ => unexpected,
        },
        WorkflowState::ScanDocument { plan } => match ev {
            Event::Text(project_number) => t == (WorkflowState::ScanItems { project_number, plan })
                && a == Action::FetchProjectItems(project_number),
            Event::Missing => t == (WorkflowState::ScanDefault { plan }) && a == Action::ReadDefaultProject,
            _ => unexpected,
        },
        WorkflowState::ScanDefault { plan } => match ev {
            Event::Text(project_number) => t == (WorkflowState::ScanItems { project_number, plan })
                && a == Action::FetchProjectItems(project_number),
            Event::Missing => ends(t, a, Err(WorkflowError::NoProjectNumber)),
            _ => unexpected,
        },
        WorkflowState::ScanItems { project_number, plan } => match ev {
            Event::Items(items) => if plan.organize {
                ends(t, a, Ok(WorkflowOutcome::TasksScanned {
                    project_number,
                    items,
                    filter_type: plan.filter_type,
                    status: plan.status,
                }))
            } else {
                ends(t, a, Ok(WorkflowOutcome::ProjectTasks { project_number, items }))
            },
            Event::Failed(detail) => ends(t, a, Err(WorkflowError::GitHubApi { detail })),
            Event::Unauthenticated(detail) => ends(t, a, Err(WorkflowError::Authentication { detail })),
            _ => unexpected,
        },
        WorkflowState::MergeBranch { delete_branch, cleanup_work_folder } => match ev {
            Event::Text(branch) => t == (WorkflowState::MergeMain { branch, delete_branch, cleanup_work_folder })
                && a == Action::MainBranch,
            Event::Failed(detail) => ends(t, a, Err(WorkflowError::Git { operation: GitOperation::CurrentBranch, detail })),
            _ => unexpected,
        },
        WorkflowState::MergeMain { branch, delete_branch, cleanup_work_folder } => match ev {
            Event::Text(main_branch) => if branch@ == main_branch@ {
                ends(t, a, Err(WorkflowError::OnMainBranch { branch }))
            } else {
                t == (WorkflowState::MergeCredentials {
                    plan: MergePlan { branch, main_branch, delete_branch, cleanup_work_folder },
                }) && a == Action::Authenticate
            },
            _ => unexpected,
        },
        WorkflowState::MergeCredentials { plan } => match ev {
            Event::Done => t == (WorkflowState::MergeStatus { plan }) && a == Action::Status,
            Event::Unauthenticated(detail) => ends(t, a, Err(WorkflowError::Authentication { detail })),
            Event::Failed(detail) => ends(t, a, Err(WorkflowError::GitHubApi { detail })),
            _ => unexpected,
        },
        WorkflowState::MergeStatus { plan } => match ev {
            Event::Lines(changes) => if changes@.len() > 0 {
                t == (WorkflowState::MergeCommit { plan })
                    && (a matches Action::Commit(m) && m@ == final_changes_message(plan.branch@))
            } else {
                t == (WorkflowState::MergePush { plan }) && a == Action::Push(plan.branch)
            },
            Event::Failed(detail) => ends(t, a, Err(WorkflowError::Git { operation: GitOperation::Status, detail })),
            _ => unexpected,
        },
        WorkflowState::MergeCommit { plan } => match ev {
            Event::Done => t == (WorkflowState::MergePush { plan }) && a == Action::Push(plan.branch),
            Event::Failed(detail) => ends(t, a, Err(WorkflowError::Git { operation: GitOperation::Commit, detail })),
            _ => unexpected,
        },
        WorkflowState::MergePush { plan } => match ev {
            Event::Done => t == (WorkflowState::MergeFindPullRequest { plan }) && a == Action::FindPullRequest(plan.branch),
            Event::Failed(detail) => ends(t, a, Err(WorkflowError::Git { operation: GitOperation::Push, detail })),
            _ => unexpected,
        },
        WorkflowState::MergeFindPullRequest { plan } => match ev {
            Event::PullRequest(pull_request) => t == (WorkflowState::MergeChecking { plan, pull_request })
                && a == Action::CheckPullRequest(pull_request.number),
            Event::NoPullRequest => ends(t, a, Err(WorkflowError::NoPullRequest { branch: plan.branch })),
            Event::Failed(detail) => ends(t, a, Err(WorkflowError::GitHubApi { detail })),
            Event::Unauthenticated(detail) => ends(t, a, Err(WorkflowError::Authentication { detail })),
            _ => unexpected,
        },
        WorkflowState::MergeChecking { plan, pull_request } => match ev {
            Event::Done => t == (WorkflowState::MergeMerging { plan, pull_request })
                && a == Action::MergePullRequest(pull_request.number),
            Event::Failed(detail) => ends(t, a, Err(WorkflowError::ChecksFailed { number: pull_request.number, detail })),
            Event::Unauthenticated(detail) => ends(t, a, Err(WorkflowError::Authentication { detail })),
            _ => unexpected,
        },
        WorkflowState::MergeMerging { plan, pull_request } => match ev {
            Event::Done => t == (WorkflowState::MergeCheckout { plan, pull_request })
                && a == Action::Checkout(plan.main_branch),
            Event::Failed(detail) => ends(t, a, Err(WorkflowError::GitHubApi { detail })),
            Event::Unauthenticated(detail) => ends(t, a, Err(WorkflowError::Authentication { detail })),
            _ => unexpected,
        },
        WorkflowState::MergeCheckout { plan, pull_request } => match ev {
            Event::Done => t == (WorkflowState::MergePull { plan, pull_request }) && a == Action::Pull(plan.main_branch),
            Event::Failed(detail) => ends(t, a, Err(WorkflowError::Git { operation: GitOperation::Checkout, detail })),
            _ => unexpected,
        },
        WorkflowState::MergePull { plan, pull_request } => match ev {
            Event::Done => if plan.cleanup_work_folder {
                t == (WorkflowState::MergeClean { plan, pull_request }) && a == Action::CleanWorkFolder
            } else {
                after_cleanup(plan, pull_request, false, t, a)
            },
            Event::Failed(detail) => ends(t, a, Err(WorkflowError::Git { operation: GitOperation::Pull, detail })),
            _ => unexpected,
        },
        WorkflowState::MergeClean { plan, pull_request } => match ev {
            Event::Done => after_cleanup(plan, pull_request, true, t, a),
            Event::Failed(_) => after_cleanup(plan, pull_request, false, t, a),
            _ => unexpected,
        },
        WorkflowState::MergeDelete { plan, pull_request, work_folder_cleaned } => match ev {
            Event::Done => ends(t, a, Ok(WorkflowOutcome::Merged {
                pull_request,
                main_branch: plan.main_branch,
                branch_deleted: true,
                work_folder_cleaned,
            })),
            Event::Failed(_) => ends(t, a, Ok(WorkflowOutcome::Merged {
                pull_request,
                main_branch: plan.main_branch,
                branch_deleted: false,
                work_folder_cleaned,
            })),
            _ => unexpected,
        },
        WorkflowState::TreeBranch => match ev {
            Event::Text(branch) => t == (WorkflowState::TreeStatus { branch }) && a == Action::Status,
            Event::Failed(detail) => ends(t, a, Err(WorkflowError::Git { operation: GitOperation::CurrentBranch, detail })),
            _ => unexpected,
        },
        WorkflowState::TreeStatus { branch } => match ev {
            Event::Lines(changes) => t == (WorkflowState::TreePullRequest { branch, changes })
                && a == Action::FindPullRequest(branch),
            Event::Failed(detail) => ends(t, a, Err(WorkflowError::Git { operation: GitOperation::Status, detail })),
            _ => unexpected,
        },
        WorkflowState::TreePullRequest { branch, changes } => match ev {
            Event::PullRequest(pr) => ends(t, a, Ok(WorkflowOutcome::WorkingTree { branch, changes, pull_request: Some(pr) })),
            Event::NoPullRequest | Event::Failed(_) | Event::Unauthenticated(_) => ends(t, a, Ok(WorkflowOutcome::WorkingTree {
                branch,
                changes,
                pull_request: None,
            })),
            _ => unexpected,
        },
        WorkflowState::Finished { outcome } => t == s && a == Action::Finish,
    }
}

/// The message of the commit that a merge makes of uncommitted changes.
pub fn final_changes_commit_message(branch: &String) -> (r: String)
    ensures
        r@ == final_changes_message(branch@),
{
    let mut m = String::from_str("Final changes for ");
    m.append(branch.as_str());
    m
}

fn finish(outcome: Result<WorkflowOutcome, WorkflowError>) -> (r: (WorkflowState, Action))
    ensures
        ends(r.0, r.1, outcome),
{
    (WorkflowState::Finished { outcome }, Action::Finish)
}

fn git_failure(operation: GitOperation, detail: String) -> (r: (WorkflowState, Action))
    ensures
        ends(r.0, r.1, Err(WorkflowError::Git { operation, detail })),
{
    finish(Err(WorkflowError::Git { operation, detail }))
}

fn continue_after_cleanup(plan: MergePlan, pull_request: PullRequestSummary, work_folder_cleaned: bool) -> (r: (
    WorkflowState,
    Action,
))
    ensures
        after_cleanup(plan, pull_request, work_folder_cleaned, r.0, r.1),
{
    if plan.delete_branch {
        let branch = plan.branch.clone();
        (WorkflowState::MergeDelete { plan, pull_request, work_folder_cleaned }, Action::DeleteBranch(branch))
    } else {
        finish(Ok(WorkflowOutcome::Merged {
            pull_request,
            main_branch: plan.main_branch,
            branch_deleted: false,
            work_folder_cleaned,
        }))
    }
}

fn unexpected() -> (r: (WorkflowState, Action))
    ensures
        ends(r.0, r.1, Err(WorkflowError::UnexpectedEvent)),
{
    finish(Err(WorkflowError::UnexpectedEvent))
}

impl WorkflowState {
    /// Whether the workflow is over.
    pub fn is_finished(&self) -> (r: bool)
        ensures
            r == (self is Finished),
    {
        match self {
            WorkflowState::Finished { .. } => true,
            _ => false,
        }
    }

    /// The outcome of a finished workflow.
    pub fn into_outcome(self) -> (r: Option<Result<WorkflowOutcome, WorkflowError>>)
        ensures
            match self {
                WorkflowState::Finished { outcome } => r == Some(outcome),
                _ => r is None,
            },
    {
        match self {
            WorkflowState::Finished { outcome } => Some(outcome),
            _ => None,
        }
    }

    /// Takes the answer to the last action and names the next one.
    pub fn step(self, ev: Event) -> (r: (WorkflowState, Action))
        ensures
            transition(self, ev, r.0, r.1),
    {
        match self {
            WorkflowState::PushBranch { message, ready_for_review } => match ev {
                Event::Text(branch) => (WorkflowState::PushMain { branch, message, ready_for_review }, Action::MainBranch),
                Event::Failed(detail) => git_failure(GitOperation::CurrentBranch, detail),
                _ => unexpected(),
            },
            WorkflowState::PushMain { branch, message, ready_for_review } => match ev {
                Event::Text(main_branch) => {
                    if branch == main_branch {
                        finish(Ok(WorkflowOutcome::PushOnMainBranch { branch, main_branch }))
                    } else {
                        match message {
                            Some(m) => (WorkflowState::PushCommit { plan: PushPlan { branch, ready_for_review } }, Action::Commit(m)),
                            None => (WorkflowState::PushStatus { plan: PushPlan { branch, ready_for_review } }, Action::Status),
                        }
                    }
                },
                _ => unexpected(),
            },
            WorkflowState::PushCommit { plan } => match ev {
                Event::Done => (WorkflowState::PushStatus { plan }, Action::Status),
                Event::Failed(detail) => git_failure(GitOperation::Commit, detail),
                _ => unexpected(),
            },
            WorkflowState::PushStatus { plan } => match ev {
                Event::Lines(changes) => {
                    if changes.len() > 0 {
                        finish(Ok(WorkflowOutcome::UncommittedChanges { changes }))
                    } else {
                        let branch = plan.branch.clone();
                        (WorkflowState::PushRemote { plan }, Action::Push(branch))
                    }
                },
                Event::Failed(detail) => git_failure(GitOperation::Status, detail),
                _ => unexpected(),
            },
            WorkflowState::PushRemote { plan } => match ev {
                Event::Done => {
                    let branch = plan.branch.clone();
                    (WorkflowState::PushPullRequest { plan }, Action::FindPullRequest(branch))
                },
                Event::Failed(detail) => git_failure(GitOperation::Push, detail),
                _ => unexpected(),
            },
            WorkflowState::PushPullRequest { plan } => match ev {
                Event::PullRequest(pr) => {
                    let ready = plan.ready_for_review && pr.draft;
                    finish(Ok(WorkflowOutcome::Pushed { branch: plan.branch, ready_for_review: ready, pull_request: Some(pr) }))
                },
                Event::NoPullRequest | Event::Failed(_) | Event::Unauthenticated(_) => {
                    finish(Ok(WorkflowOutcome::Pushed { branch: plan.branch, pull_request: None, ready_for_review: false }))
                },
                _ => unexpected(),
            },
            WorkflowState::ScanDocument { plan } => match ev {
                Event::Text(project_number) => {
                    let p = project_number.clone();
                    (WorkflowState::ScanItems { project_number, plan }, Action::FetchProjectItems(p))
                },
                Event::Missing => (WorkflowState::ScanDefault { plan }, Action::ReadDefaultProject),
                _ => unexpected(),
            },
            WorkflowState::ScanDefault { plan } => match ev {
                Event::Text(project_number) => {
                    let p = project_number.clone();
                    (WorkflowState::ScanItems { project_number, plan }, Action::FetchProjectItems(p))
                },
                Event::Missing => finish(Err(WorkflowError::NoProjectNumber)),
                _ => unexpected(),
            },
            WorkflowState::ScanItems { project_number, plan } => match ev {
                Event::Items(items) => {
                    if plan.organize {
                        finish(Ok(WorkflowOutcome::TasksScanned {
                            project_number,
                            items,
                            filter_type: plan.filter_type,
                            status: plan.status,
                        }))
                    } else {
                        finish(Ok(WorkflowOutcome::ProjectTasks { project_number, items }))
                    }
                },
                Event::Failed(detail) => finish(Err(WorkflowError::GitHubApi { detail })),
                Event::Unauthenticated(detail) => finish(Err(WorkflowError::Authentication { detail })),
                _ => unexpected(),
            },
            WorkflowState::MergeBranch { delete_branch, cleanup_work_folder } => match ev {
                Event::Text(branch) => (WorkflowState::MergeMain { branch, delete_branch, cleanup_work_folder }, Action::MainBranch),
                Event::Failed(detail) => git_failure(GitOperation::CurrentBranch, detail),
                _ => unexpected(),
            },
            WorkflowState::MergeMain { branch, delete_branch, cleanup_work_folder } => match ev {
                Event::Text(main_branch) => {
                    if branch == main_branch {
                        finish(Err(WorkflowError::OnMainBranch { branch }))
                    } else {
                        let plan = MergePlan { branch, main_branch, delete_branch, cleanup_work_folder };
                        (WorkflowState::MergeCredentials { plan }, Action::Authenticate)
                    }
                },
                _ => unexpected(),
            },
            WorkflowState::MergeCredentials { plan } => match ev {
                Event::Done => (WorkflowState::MergeStatus { plan }, Action::Status),
                Event::Unauthenticated(detail) => finish(Err(WorkflowError::Authentication { detail })),
                Event::Failed(detail) => finish(Err(WorkflowError::GitHubApi { detail })),
                _ => unexpected(),
            },
            WorkflowState::MergeStatus { plan } => match ev {
                Event::Lines(changes) => {
                    if changes.len() > 0 {
                        let m = final_changes_commit_message(&plan.branch);
                        (WorkflowState::MergeCommit { plan }, Action::Commit(m))
                    } else {
                        let branch = plan.branch.clone();
                        (WorkflowState::MergePush { plan }, Action::Push(branch))
                    }
                },
                Event::Failed(detail) => git_failure(GitOperation::Status, detail),
                _ => unexpected(),
            },
            WorkflowState::MergeCommit { plan } => match ev {
                Event::Done => {
                    let branch = plan.branch.clone();
                    (WorkflowState::MergePush { plan }, Action::Push(branch))
                },
                Event::Failed(detail) => git_failure(GitOperation::Commit, detail),
                _ => unexpected(),
            },
            WorkflowState::MergePush { plan } => match ev {
                Event::Done => {
                    let branch = plan.branch.clone();
                    (WorkflowState::MergeFindPullRequest { plan }, Action::FindPullRequest(branch))
                },
                Event::Failed(detail) => git_failure(GitOperation::Push, detail),
                _ => unexpected(),
            },
            WorkflowState::MergeFindPullRequest { plan } => match ev {
                Event::PullRequest(pull_request) => {
                    let number = pull_request.number;
                    (WorkflowState::MergeChecking { plan, pull_request }, Action::CheckPullRequest(number))
                },
                Event::NoPullRequest => finish(Err(WorkflowError::NoPullRequest { branch: plan.branch })),
                Event::Failed(detail) => finish(Err(WorkflowError::GitHubApi { detail })),
                Event::Unauthenticated(detail) => finish(Err(WorkflowError::Authentication { detail })),
                _ => unexpected(),
            },
            WorkflowState::MergeChecking { plan, pull_request } => match ev {
                Event::Done => {
                    let number = pull_request.number;
                    (WorkflowState::MergeMerging { plan, pull_request }, Action::MergePullRequest(number))
                },
                Event::Failed(detail) => {
                    let number = pull_request.number;
                    finish(Err(WorkflowError::ChecksFailed { number, detail }))
                },
                Event::Unauthenticated(detail) => finish(Err(WorkflowError::Authentication { detail })),
                _ => unexpected(),
            },
            WorkflowState::MergeMerging { plan, pull_request } => match ev {
                Event::Done => {
                    let main_branch = plan.main_branch.clone();
                    (WorkflowState::MergeCheckout { plan, pull_request }, Action::Checkout(main_branch))
                },
                Event::Failed(detail) => finish(Err(WorkflowError::GitHubApi { detail })),
                Event::Unauthenticated(detail) => finish(Err(WorkflowError::Authentication { detail })),
                _ => unexpected(),
            },
            WorkflowState::MergeCheckout { plan, pull_request } => match ev {
                Event::Done => {
                    let main_branch = plan.main_branch.clone();
                    (WorkflowState::MergePull { plan, pull_request }, Action::Pull(main_branch))
                },
                Event::Failed(detail) => git_failure(GitOperation::Checkout, detail),
                _ => unexpected(),
            },
            WorkflowState::MergePull { plan, pull_request } => match ev {
                Event::Done => {
                    if plan.cleanup_work_folder {
                        (WorkflowState::MergeClean { plan, pull_request }, Action::CleanWorkFolder)
                    } else {
                        continue_after_cleanup(plan, pull_request, false)
                    }
                },
                Event::Failed(detail) => git_failure(GitOperation::Pull, detail),
                _ => unexpected(),
            },
            WorkflowState::MergeClean { plan, pull_request } => match ev {
                Event::Done => continue_after_cleanup(plan, pull_request, true),
                Event::Failed(_) => continue_after_cleanup(plan, pull_request, false),
                _ => unexpected(),
            },
            WorkflowState::MergeDelete { plan, pull_request, work_folder_cleaned } => match ev {
                Event::Done => finish(Ok(WorkflowOutcome::Merged {
                    pull_request,
                    main_branch: plan.main_branch,
                    branch_deleted: true,
                    work_folder_cleaned,
                })),
                Event::Failed(_) => finish(Ok(WorkflowOutcome::Merged {
                    pull_request,
                    main_branch: plan.main_branch,
                    branch_deleted: false,
                    work_folder_cleaned,
                })),
                _ => unexpected(),
            },
            WorkflowState::TreeBranch => match ev {
                Event::Text(branch) => (WorkflowState::TreeStatus { branch }, Action::Status),
                Event::Failed(detail) => git_failure(GitOperation::CurrentBranch, detail),
                _ => unexpected(),
            },
            WorkflowState::TreeStatus { branch } => match ev {
                Event::Lines(changes) => {
                    let b = branch.clone();
                    (WorkflowState::TreePullRequest { branch, changes }, Action::FindPullRequest(b))
                },
                Event::Failed(detail) => git_failure(GitOperation::Status, detail),
                _ => unexpected(),
            },
            WorkflowState::TreePullRequest { branch, changes } => match ev {
                Event::PullRequest(pr) => finish(Ok(WorkflowOutcome::WorkingTree { branch, changes, pull_request: Some(pr) })),
                Event::NoPullRequest | Event::Failed(_) | Event::Unauthenticated(_) => {
                    finish(Ok(WorkflowOutcome::WorkingTree { branch, changes, pull_request: None }))
                },
                _ => unexpected(),
            },
            WorkflowState::Finished { outcome } => (WorkflowState::Finished { outcome }, Action::Finish),
        }
    }
}

/// Starts a push: the branch given, or the current one, must differ from the
/// main branch; a message, if given, commits every pending change first.
pub fn execute_push_workflow(branch: Option<String>, message: Option<String>, ready_for_review: Option<bool>) -> (r: (
    WorkflowState,
    Action,
))
    ensures
        ({
            let ready = ready_for_review == Some(true);
            match branch {
                Some(b) => r.0 == (WorkflowState::PushMain { branch: b, message, ready_for_review: ready })
                    && r.1 == Action::MainBranch,
                None => r.0 == (WorkflowState::PushBranch { message, ready_for_review: ready })
                    && r.1 == Action::CurrentBranch,
            }
        }),
{
    let ready = match ready_for_review {
        Some(flag) => flag,
        None => false,
    };
    match branch {
        Some(b) => (WorkflowState::PushMain { branch: b, message, ready_for_review: ready }, Action::MainBranch),
        None => (WorkflowState::PushBranch { message, ready_for_review: ready }, Action::CurrentBranch),
    }
}

/// Starts a scan of a project's items: the project number given, else the
/// one of the tracking document, else the one of the environment.
pub fn execute_scan_tasks_workflow(project_number: Option<String>, filter_type: Option<String>, status: Option<String>) -> (r: (
    WorkflowState,
    Action,
))
    ensures
        ({
            let plan = ScanPlan { filter_type, status, organize: true };
            match project_number {
                Some(p) => r.0 == (WorkflowState::ScanItems { project_number: p, plan })
                    && r.1 == Action::FetchProjectItems(p),
                None => r.0 == (WorkflowState::ScanDocument { plan }) && r.1 == Action::ReadTrackingDocument,
            }
        }),
{
    let plan = ScanPlan { filter_type, status, organize: true };
    match project_number {
        Some(p) => {
            let q = p.clone();
            (WorkflowState::ScanItems { project_number: p, plan }, Action::FetchProjectItems(q))
        },
        None => (WorkflowState::ScanDocument { plan }, Action::ReadTrackingDocument),
    }
}

/// Starts a merge of the branch given, or the current one, into the main
/// branch. The branch is deleted afterwards unless `delete_branch` is
/// `Some(false)`.
pub fn execute_merge_workflow(branch: Option<String>, delete_branch: Option<bool>, cleanup_work_folder: Option<bool>) -> (r: (
    WorkflowState,
    Action,
))
    ensures
        ({
            let delete = delete_branch != Some(false);
            let cleanup = cleanup_work_folder == Some(true);
            match branch {
                Some(b) => r.0 == (WorkflowState::MergeMain { branch: b, delete_branch: delete, cleanup_work_folder: cleanup })
                    && r.1 == Action::MainBranch,
                None => r.0 == (WorkflowState::MergeBranch { delete_branch: delete, cleanup_work_folder: cleanup })
                    && r.1 == Action::CurrentBranch,
            }
        }),
{
    let delete = match delete_branch {
        Some(flag) => flag,
        None => true,
    };
    let cleanup = match cleanup_work_folder {
        Some(flag) => flag,
        None => false,
    };
    match branch {
        Some(b) => (WorkflowState::MergeMain { branch: b, delete_branch: delete, cleanup_work_folder: cleanup }, Action::MainBranch),
        None => (WorkflowState::MergeBranch { delete_branch: delete, cleanup_work_folder: cleanup }, Action::CurrentBranch),
    }
}

/// The first state and action of a command.
pub open spec fn command_start(cmd: GitHubCommand, t: WorkflowState, a: Action) -> bool {
    match cmd {
        GitHubCommand::Push { branch, message, ready_for_review } => {
            let ready = ready_for_review == Some(true);
            match branch {
                Some(b) => t == (WorkflowState::PushMain { branch: b, message, ready_for_review: ready }) && a == Action::MainBranch,
                None => t == (WorkflowState::PushBranch { message, ready_for_review: ready }) && a == Action::CurrentBranch,
            }
        },
        GitHubCommand::ScanTasks { project_number, filter_type, status } => {
            let plan = ScanPlan { filter_type, status, organize: true };
            match project_number {
                Some(p) => t == (WorkflowState::ScanItems { project_number: p, plan }) && a == Action::FetchProjectItems(p),
                None => t == (WorkflowState::ScanDocument { plan }) && a == Action::ReadTrackingDocument,
            }
        },
        GitHubCommand::Merge { branch, delete_branch, cleanup_work_folder } => {
            let delete = delete_branch != Some(false);
            let cleanup = cleanup_work_folder == Some(true);
            match branch {
                Some(b) => t == (WorkflowState::MergeMain { branch: b, delete_branch: delete, cleanup_work_folder: cleanup })
                    && a == Action::MainBranch,
                None => t == (WorkflowState::MergeBranch { delete_branch: delete, cleanup_work_folder: cleanup })
                    && a == Action::CurrentBranch,
            }
        },
    }
}

/// Starts the workflow of a command.
pub fn execute_command(command: GitHubCommand) -> (r: (WorkflowState, Action))
    ensures
        command_start(command, r.0, r.1),
{
    match command {
        GitHubCommand::Push { branch, message, ready_for_review } => execute_push_workflow(branch, message, ready_for_review),
        GitHubCommand::ScanTasks { project_number, filter_type, status } => {
            execute_scan_tasks_workflow(project_number, filter_type, status)
        },
        GitHubCommand::Merge { branch, delete_branch, cleanup_work_folder } => {
            execute_merge_workflow(branch, delete_branch, cleanup_work_folder)
        },
    }
}

/// Starts a read of the working tree: branch, changes, and pull request.
pub fn get_status() -> (r: (WorkflowState, Action))
    ensures
        r.0 == WorkflowState::TreeBranch,
        r.1 == Action::CurrentBranch,
{
    (WorkflowState::TreeBranch, Action::CurrentBranch)
}

/// Starts a read of the items of the detected project.
pub fn get_tasks() -> (r: (WorkflowState, Action))
    ensures
        r.0 == (WorkflowState::ScanDocument { plan: ScanPlan { filter_type: None, status: None, organize: false } }),
        r.1 == Action::ReadTrackingDocument,
{
    (WorkflowState::ScanDocument { plan: ScanPlan { filter_type: None, status: None, organize: false } }, Action::ReadTrackingDocument)
}

/// Starts the push endpoint's command: everything inferred.
pub fn handle_push() -> (r: (WorkflowState, Action))
    ensures
        command_start(GitHubCommand::Push { branch: None, message: None, ready_for_review: None }, r.0, r.1),
{
    execute_command(GitHubCommand::Push { branch: None, message: None, ready_for_review: None })
}

/// Starts the scan endpoint's command: everything inferred.
pub fn handle_scan_tasks() -> (r: (WorkflowState, Action))
    ensures
        command_start(GitHubCommand::ScanTasks { project_number: None, filter_type: None, status: None }, r.0, r.1),
{
    execute_command(GitHubCommand::ScanTasks { project_number: None, filter_type: None, status: None })
}

/// Starts the merge endpoint's command: the current branch, deleted after.
pub fn handle_merge() -> (r: (WorkflowState, Action))
    ensures
        command_start(
            GitHubCommand::Merge { branch: None, delete_branch: Some(true), cleanup_work_folder: None },
            r.0,
            r.1,
        ),
{
    execute_command(GitHubCommand::Merge { branch: None, delete_branch: Some(true), cleanup_work_folder: None })
}

/// The states, events and actions of a run: each step follows `transition`.
pub open spec fn is_run(states: Seq<WorkflowState>, events: Seq<Event>, actions: Seq<Action>) -> bool {
    &&& states.len() == events.len() + 1
    &&& actions.len() == events.len()
    &&& forall|i: int| 0 <= i < events.len() ==> #[trigger] transition(states[i], events[i], states[i + 1], actions[i])
}

/// Step `i` of a run follows `transition`.
proof fn step_of(states: Seq<WorkflowState>, events: Seq<Event>, actions: Seq<Action>, i: int)
    requires
        is_run(states, events, actions),
        0 <= i < events.len(),
    ensures
        transition(states[i], events[i], states[i + 1], actions[i]),
{
}

/// The (up to three) steps that lead to step `k` of a run follow
/// `transition`: enough to trace a start state to the main-branch and
/// credential checks.
proof fn steps_before(states: Seq<WorkflowState>, events: Seq<Event>, actions: Seq<Action>, k: int)
    requires
        is_run(states, events, actions),
        0 <= k <= events.len(),
    ensures
        k >= 1 ==> transition(states[k - 1], events[k - 1], states[k], actions[k - 1]),
        k >= 2 ==> transition(states[k - 2], events[k - 2], states[k - 1], actions[k - 2]),
        k >= 3 ==> transition(states[k - 3], events[k - 3], states[k - 2], actions[k - 3]),
{
    if k >= 1 {
        step_of(states, events, actions, k - 1);
        assert(states[(k - 1) + 1] == states[k]);
    }
    if k >= 2 {
        step_of(states, events, actions, k - 2);
        assert(states[(k - 2) + 1] == states[k - 1]);
    }
    if k >= 3 {
        step_of(states, events, actions, k - 3);
        assert(states[(k - 3) + 1] == states[k - 2]);
    }
}

/// Once finished, a run stays where it is and asks for nothing but `Finish`.
proof fn finished_is_final(states: Seq<WorkflowState>, events: Seq<Event>, actions: Seq<Action>, k: int)
    requires
        is_run(states, events, actions),
        0 <= k < states.len(),
        states[k] is Finished,
    ensures
        forall|j: int| k <= j < states.len() ==> states[j] == states[k],
        forall|j: int| k <= j < actions.len() ==> actions[j] == Action::Finish,
    decreases states.len() - k,
{
    if k + 1 < states.len() {
        step_of(states, events, actions, k);
        finished_is_final(states, events, actions, k + 1);
    }
}

/// A push whose branch turns out to be the main branch commits nothing and
/// pushes nothing: the run ends with a warning as soon as the main branch is
/// known, and asks for no change of the working tree, the remote or GitHub.
pub proof fn push_on_main_branch_mutates_nothing(
    states: Seq<WorkflowState>,
    events: Seq<Event>,
    actions: Seq<Action>,
    k: int,
)
    requires
        is_run(states, events, actions),
        states[0] is PushBranch || states[0] is PushMain,
        0 <= k < events.len(),
        states[k] matches WorkflowState::PushMain { branch, .. }
            && (events[k] matches Event::Text(main_branch) && main_branch@ == branch@),
    ensures
        forall|i: int| 0 <= i < actions.len() ==> !(#[trigger] actions[i]).is_mutation(),
        states.last() matches WorkflowState::Finished { outcome: Ok(o) } && o.status() == ResultStatus::Warning,
{
    step_of(states, events, actions, k);
    steps_before(states, events, actions, k);
    finished_is_final(states, events, actions, k + 1);

}

/// A merge asked for on the main branch is refused with an error, and the run
/// asks for no change of the working tree, the remote or GitHub.
pub proof fn merge_on_main_branch_mutates_nothing(
    states: Seq<WorkflowState>,
    events: Seq<Event>,
    actions: Seq<Action>,
    k: int,
)
    requires
        is_run(states, events, actions),
        states[0] is MergeBranch || states[0] is MergeMain,
        0 <= k < events.len(),
        states[k] matches WorkflowState::MergeMain { branch, .. }
            && (events[k] matches Event::Text(main_branch) && main_branch@ == branch@),
    ensures
        forall|i: int| 0 <= i < actions.len() ==> !(#[trigger] actions[i]).is_mutation(),
        states.last() matches WorkflowState::Finished { outcome: Err(WorkflowError::OnMainBranch { .. }) },
{
    step_of(states, events, actions, k);
    steps_before(states, events, actions, k);
    finished_is_final(states, events, actions, k + 1);

}

/// A merge that finds no credential for the GitHub service stops with an
/// authentication error before it commits, pushes or changes anything.
pub proof fn unauthenticated_merge_mutates_nothing(
    states: Seq<WorkflowState>,
    events: Seq<Event>,
    actions: Seq<Action>,
    k: int,
)
    requires
        is_run(states, events, actions),
        states[0] is MergeBranch || states[0] is MergeMain,
        0 <= k < events.len(),
        states[k] is MergeCredentials,
        events[k] is Unauthenticated,
    ensures
        forall|i: int| 0 <= i < actions.len() ==> !(#[trigger] actions[i]).is_mutation(),
        states.last() matches WorkflowState::Finished { outcome: Err(WorkflowError::Authentication { .. }) },
{
    step_of(states, events, actions, k);
    steps_before(states, events, actions, k);
    finished_is_final(states, events, actions, k + 1);
}

} // verus!
