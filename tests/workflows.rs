use github_mcp_server::github::api::{
    GitHubProjectContent, GitHubProjectField, GitHubProjectFieldValue, GitHubProjectItem, PullRequestSummary,
};
use github_mcp_server::github::report::organize_tasks_by_priority;
use github_mcp_server::github::workflows::{
    execute_command, get_status, get_tasks, handle_merge, Action, Event, ResultStatus, WorkflowError,
    WorkflowOutcome, WorkflowState,
};
use github_mcp_server::json::JsonValue;
use github_mcp_server::mcp::error_codes::{AUTHENTICATION_ERROR, GITHUB_API_ERROR, WORKFLOW_ERROR};
use github_mcp_server::mcp::handlers::command_response;
use github_mcp_server::mcp::protocol::GitHubCommand;

fn text(s: &str) -> Event {
    Event::Text(s.to_string())
}

fn is_mutation(a: &Action) -> bool {
    matches!(
        a,
        Action::Commit(_)
            | Action::Push(_)
            | Action::Checkout(_)
            | Action::Pull(_)
            | Action::DeleteBranch(_)
            | Action::MergePullRequest(_)
    )
}

/// Feeds the events in order; returns the final state and every action asked for.
fn drive(start: (WorkflowState, Action), events: Vec<Event>) -> (WorkflowState, Vec<Action>) {
    let (mut state, first) = start;
    let mut actions = vec![first];
    for ev in events {
        let (next, action) = state.step(ev);
        state = next;
        actions.push(action);
    }
    (state, actions)
}

fn outcome(state: WorkflowState) -> Result<WorkflowOutcome, WorkflowError> {
    state.into_outcome().expect("workflow finished")
}

fn pr(number: u64, draft: bool) -> PullRequestSummary {
    PullRequestSummary {
        number,
        url: format!("https://github.com/o/r/pull/{}", number),
        title: "Add feature".to_string(),
        draft,
    }
}

fn field<'a>(v: &'a JsonValue, key: &str) -> &'a JsonValue {
    v.get(key).unwrap_or_else(|| panic!("missing field {}", key))
}

fn text_of(v: &JsonValue) -> String {
    v.as_str().expect("a string").clone()
}

#[test]
fn push_with_message_on_feature_branch_without_pr_suggests_one() {
    let cmd = GitHubCommand::Push { branch: None, message: Some("fix bug".to_string()), ready_for_review: None };
    let (state, actions) = drive(
        execute_command(cmd),
        vec![text("feature/x"), text("main"), Event::Done, Event::Lines(vec![]), Event::Done, Event::NoPullRequest],
    );
    assert!(matches!(actions[0], Action::CurrentBranch));
    assert!(matches!(actions[1], Action::MainBranch));
    assert!(matches!(&actions[2], Action::Commit(m) if m == "fix bug"));
    assert!(matches!(actions[3], Action::Status));
    assert!(matches!(&actions[4], Action::Push(b) if b == "feature/x"));
    assert!(matches!(&actions[5], Action::FindPullRequest(b) if b == "feature/x"));
    assert!(matches!(actions[6], Action::Finish));
    let out = outcome(state).expect("success");
    assert!(out.result_status() == ResultStatus::Success);
    let resp = command_response(Some(JsonValue::Number(8)), Ok(out));
    let result = resp.result.expect("a result");
    assert_eq!(text_of(field(&result, "status")), "success");
    assert_eq!(text_of(field(&result, "branch")), "feature/x");
    assert_eq!(text_of(field(&result, "suggestion")), "Consider creating a pull request for this branch");
    assert!(result.get("pull_request").is_none());
}

#[test]
fn push_on_main_branch_warns_and_changes_nothing() {
    let cmd = GitHubCommand::Push { branch: None, message: Some("wip".to_string()), ready_for_review: None };
    let (state, actions) = drive(execute_command(cmd), vec![text("main"), text("main"), Event::Done, Event::Done]);
    assert!(actions.iter().all(|a| !is_mutation(a)));
    let out = outcome(state).expect("a warning, not an error");
    assert!(out.result_status() == ResultStatus::Warning);
    let result = command_response(None, Ok(out)).result.unwrap();
    assert_eq!(text_of(field(&result, "status")), "warning");
    assert_eq!(text_of(field(&result, "message")), "You're on main branch (main). Are you sure you want to push?");
    assert_eq!(text_of(field(&result, "branch")), "main");
    assert!(matches!(field(&result, "requires_confirmation"), JsonValue::Bool(true)));
}

#[test]
fn push_with_explicit_branch_equal_to_main_warns() {
    let cmd = GitHubCommand::Push { branch: Some("develop".to_string()), message: None, ready_for_review: None };
    let (state, actions) = drive(execute_command(cmd), vec![text("develop")]);
    assert!(matches!(actions[0], Action::MainBranch));
    assert!(actions.iter().all(|a| !is_mutation(a)));
    assert!(matches!(outcome(state), Ok(WorkflowOutcome::PushOnMainBranch { .. })));
}

#[test]
fn push_with_dirty_tree_reports_error_status_and_does_not_push() {
    let cmd = GitHubCommand::Push { branch: Some("feature/y".to_string()), message: None, ready_for_review: None };
    let (state, actions) = drive(execute_command(cmd), vec![text("main"), Event::Lines(vec![" M src/lib.rs".to_string()])]);
    assert!(!actions.iter().any(|a| matches!(a, Action::Push(_))));
    let out = outcome(state).unwrap();
    assert!(out.result_status() == ResultStatus::Error);
    let result = command_response(None, Ok(out)).result.unwrap();
    assert_eq!(text_of(field(&result, "status")), "error");
    match field(&result, "uncommitted_changes") {
        JsonValue::Array(items) => {
            assert_eq!(items.len(), 1);
            assert!(matches!(&items[0], JsonValue::Str(l) if l == " M src/lib.rs"));
        },
        _ => panic!("a list of changes expected"),
    }
}

#[test]
fn push_failure_aborts_with_git_error() {
    let cmd = GitHubCommand::Push { branch: Some("feature/z".to_string()), message: None, ready_for_review: None };
    let (state, actions) =
        drive(execute_command(cmd), vec![text("main"), Event::Lines(vec![]), Event::Failed("rejected".to_string())]);
    assert!(matches!(actions.last(), Some(Action::Finish)));
    let err = outcome(state).err().expect("an error");
    let resp = command_response(Some(JsonValue::Number(3)), Err(err));
    let e = resp.error.expect("an error object");
    assert_eq!(e.code, WORKFLOW_ERROR);
    assert!(e.message.contains("rejected"));
    assert!(resp.result.is_none());
}

#[test]
fn push_with_draft_pr_marks_ready_for_review() {
    let cmd = GitHubCommand::Push { branch: Some("feature/r".to_string()), message: None, ready_for_review: Some(true) };
    let (state, _) = drive(
        execute_command(cmd),
        vec![text("main"), Event::Lines(vec![]), Event::Done, Event::PullRequest(pr(7, true))],
    );
    let out = outcome(state).unwrap();
    match &out {
        WorkflowOutcome::Pushed { pull_request: Some(p), ready_for_review, .. } => {
            assert_eq!(p.number, 7);
            assert!(*ready_for_review);
        },
        _ => panic!("expected a push with a pull request"),
    }
    let result = command_response(None, Ok(out)).result.unwrap();
    assert_eq!(text_of(field(&result, "message")), "Pushed and marked PR as ready for review!");
    let p = field(&result, "pull_request");
    assert!(matches!(field(p, "number"), JsonValue::Unsigned(7)));
    assert_eq!(text_of(field(p, "url")), "https://github.com/o/r/pull/7");
    assert!(matches!(field(p, "draft"), JsonValue::Bool(true)));
    assert!(matches!(field(p, "ready_for_review"), JsonValue::Bool(true)));
    assert!(result.get("suggestion").is_none());
}

#[test]
fn merge_with_existing_pr_deletes_branch_by_default() {
    let cmd = GitHubCommand::Merge { branch: None, delete_branch: None, cleanup_work_folder: None };
    let (state, actions) = drive(
        execute_command(cmd),
        vec![
            text("feature/x"),
            text("main"),
            Event::Done,
            Event::Lines(vec![]),
            Event::Done,
            Event::PullRequest(pr(42, false)),
            Event::Done,
            Event::Done,
            Event::Done,
            Event::Done,
            Event::Done,
        ],
    );
    assert!(matches!(actions[2], Action::Authenticate));
    assert!(matches!(&actions[5], Action::FindPullRequest(b) if b == "feature/x"));
    assert!(matches!(actions[6], Action::CheckPullRequest(42)));
    assert!(matches!(actions[7], Action::MergePullRequest(42)));
    assert!(matches!(&actions[8], Action::Checkout(b) if b == "main"));
    assert!(matches!(&actions[9], Action::Pull(b) if b == "main"));
    assert!(matches!(&actions[10], Action::DeleteBranch(b) if b == "feature/x"));
    assert!(matches!(actions[11], Action::Finish));
    let result = command_response(None, Ok(outcome(state).unwrap())).result.unwrap();
    assert_eq!(text_of(field(&result, "status")), "success");
    assert!(matches!(field(field(&result, "merged_pr"), "number"), JsonValue::Unsigned(42)));
    assert_eq!(text_of(field(&result, "current_branch")), "main");
    assert!(matches!(field(&result, "branch_deleted"), JsonValue::Bool(true)));
    assert!(matches!(field(&result, "work_folder_cleaned"), JsonValue::Bool(false)));
    assert!(!actions.iter().any(|a| matches!(a, Action::CleanWorkFolder)));
}

#[test]
fn merge_reports_failed_branch_deletion() {
    let cmd = GitHubCommand::Merge { branch: Some("feature/d".to_string()), delete_branch: None, cleanup_work_folder: Some(true) };
    let (state, actions) = drive(
        execute_command(cmd),
        vec![
            text("main"),
            Event::Done,
            Event::Lines(vec![]),
            Event::Done,
            Event::PullRequest(pr(11, false)),
            Event::Done,
            Event::Done,
            Event::Done,
            Event::Done,
            Event::Done,
            Event::Failed("not fully merged".to_string()),
        ],
    );
    assert!(matches!(actions[9], Action::CleanWorkFolder));
    assert!(matches!(&actions[10], Action::DeleteBranch(b) if b == "feature/d"));
    assert!(matches!(actions.last(), Some(Action::Finish)));
    let result = command_response(None, Ok(outcome(state).unwrap())).result.unwrap();
    assert_eq!(text_of(field(&result, "status")), "success");
    assert!(matches!(field(&result, "branch_deleted"), JsonValue::Bool(false)));
    assert!(matches!(field(&result, "work_folder_cleaned"), JsonValue::Bool(true)));
}

#[test]
fn merge_reports_failed_cleanup_without_failing() {
    let cmd = GitHubCommand::Merge {
        branch: Some("feature/w".to_string()),
        delete_branch: Some(false),
        cleanup_work_folder: Some(true),
    };
    let (state, actions) = drive(
        execute_command(cmd),
        vec![
            text("main"),
            Event::Done,
            Event::Lines(vec![]),
            Event::Done,
            Event::PullRequest(pr(12, false)),
            Event::Done,
            Event::Done,
            Event::Done,
            Event::Done,
            Event::Failed("no work folder is configured".to_string()),
        ],
    );
    assert!(matches!(actions[9], Action::CleanWorkFolder));
    assert!(!actions.iter().any(|a| matches!(a, Action::DeleteBranch(_))));
    let result = command_response(None, Ok(outcome(state).unwrap())).result.unwrap();
    assert_eq!(text_of(field(&result, "status")), "success");
    assert!(matches!(field(&result, "work_folder_cleaned"), JsonValue::Bool(false)));
    assert!(matches!(field(&result, "branch_deleted"), JsonValue::Bool(false)));
}

#[test]
fn merge_commits_uncommitted_changes_first() {
    let cmd = GitHubCommand::Merge { branch: Some("feature/c".to_string()), delete_branch: Some(false), cleanup_work_folder: None };
    let (state, actions) = drive(
        execute_command(cmd),
        vec![
            text("main"),
            Event::Done,
            Event::Lines(vec!["?? new.txt".to_string()]),
            Event::Done,
            Event::Done,
            Event::PullRequest(pr(5, false)),
            Event::Done,
            Event::Done,
            Event::Done,
            Event::Done,
        ],
    );
    assert!(matches!(&actions[3], Action::Commit(m) if m == "Final changes for feature/c"));
    assert!(!actions.iter().any(|a| matches!(a, Action::DeleteBranch(_))));
    assert!(matches!(outcome(state), Ok(WorkflowOutcome::Merged { branch_deleted: false, .. })));
}

#[test]
fn merge_on_main_branch_is_refused_without_changes() {
    let (state, actions) = drive(handle_merge(), vec![text("main"), text("main"), Event::Done]);
    assert!(actions.iter().all(|a| !is_mutation(a)));
    let err = outcome(state).err().expect("refused");
    assert!(matches!(err, WorkflowError::OnMainBranch { .. }));
    let resp = command_response(Some(JsonValue::Number(1)), Err(err));
    assert_eq!(resp.error.unwrap().code, WORKFLOW_ERROR);
}

#[test]
fn merge_stops_when_checks_fail() {
    let cmd = GitHubCommand::Merge { branch: Some("feature/t".to_string()), delete_branch: None, cleanup_work_folder: None };
    let (state, actions) = drive(
        execute_command(cmd),
        vec![
            text("main"),
            Event::Done,
            Event::Lines(vec![]),
            Event::Done,
            Event::PullRequest(pr(9, false)),
            Event::Failed("tests red".to_string()),
        ],
    );
    assert!(!actions.iter().any(|a| matches!(a, Action::MergePullRequest(_) | Action::Checkout(_))));
    let err = outcome(state).err().unwrap();
    assert!(matches!(err, WorkflowError::ChecksFailed { number: 9, .. }));
    let e = command_response(None, Err(err)).error.unwrap();
    assert_eq!(e.code, WORKFLOW_ERROR);
    assert_eq!(e.message, "Pre-merge checks failed: tests red");
}

#[test]
fn merge_without_credentials_stops_before_any_change() {
    let cmd = GitHubCommand::Merge { branch: None, delete_branch: None, cleanup_work_folder: None };
    let (state, actions) = drive(
        execute_command(cmd),
        vec![text("feature/a"), text("main"), Event::Unauthenticated("No GitHub token available".to_string()), Event::Done],
    );
    assert!(actions.iter().all(|a| !is_mutation(a)));
    let err = outcome(state).err().unwrap();
    assert!(matches!(err, WorkflowError::Authentication { .. }));
    assert_eq!(command_response(None, Err(err)).error.unwrap().code, AUTHENTICATION_ERROR);
}

#[test]
fn merge_without_pr_is_an_error() {
    let cmd = GitHubCommand::Merge { branch: Some("feature/n".to_string()), delete_branch: None, cleanup_work_folder: None };
    let (state, _) = drive(execute_command(cmd), vec![text("main"), Event::Done, Event::Lines(vec![]), Event::Done, Event::NoPullRequest]);
    assert!(matches!(outcome(state), Err(WorkflowError::NoPullRequest { .. })));
}

#[test]
fn scan_without_any_project_number_fails_before_github() {
    let cmd = GitHubCommand::ScanTasks { project_number: None, filter_type: None, status: None };
    let (state, actions) = drive(execute_command(cmd), vec![Event::Missing, Event::Missing]);
    assert!(matches!(actions[0], Action::ReadTrackingDocument));
    assert!(matches!(actions[1], Action::ReadDefaultProject));
    assert!(!actions.iter().any(|a| matches!(a, Action::FetchProjectItems(_))));
    let err = outcome(state).err().expect("validation error");
    assert!(matches!(err, WorkflowError::NoProjectNumber));
    let resp = command_response(None, Err(err));
    assert_eq!(resp.error.unwrap().code, WORKFLOW_ERROR);
}

#[test]
fn scan_with_project_number_fetches_and_counts_items() {
    let cmd = GitHubCommand::ScanTasks { project_number: Some("12".to_string()), filter_type: None, status: None };
    let (state, actions) = drive(execute_command(cmd), vec![Event::Items(vec![])]);
    assert!(matches!(&actions[0], Action::FetchProjectItems(p) if p == "12"));
    let result = command_response(None, Ok(outcome(state).unwrap())).result.unwrap();
    assert_eq!(text_of(field(&result, "project_number")), "12");
    assert!(matches!(field(field(&result, "tasks"), "total"), JsonValue::Unsigned(0)));
    assert!(matches!(field(field(&result, "filters"), "type"), JsonValue::Null));
}

#[test]
fn scan_github_error_maps_to_github_code() {
    let (state, _) = drive(get_tasks(), vec![Event::Text("3".to_string()), Event::Failed("502".to_string())]);
    let resp = command_response(None, Err(outcome(state).err().unwrap()));
    assert_eq!(resp.error.unwrap().code, GITHUB_API_ERROR);
}

#[test]
fn status_read_reports_branch_and_changes() {
    let (state, _) = drive(get_status(), vec![text("feature/s"), Event::Lines(vec![" M a".to_string()]), Event::NoPullRequest]);
    let result = command_response(None, Ok(outcome(state).unwrap())).result.unwrap();
    assert_eq!(text_of(field(&result, "current_branch")), "feature/s");
    assert!(matches!(field(&result, "has_uncommitted_changes"), JsonValue::Bool(true)));
}

#[test]
fn unexpected_event_ends_the_run() {
    let (state, actions) = drive(get_status(), vec![Event::Done]);
    assert!(matches!(actions[1], Action::Finish));
    assert!(matches!(outcome(state), Err(WorkflowError::UnexpectedEvent)));
}

#[test]
fn tasks_are_counted_and_left_unclassified() {
    let item = |id: &str| GitHubProjectItem {
        id: id.to_string(),
        content: Some(GitHubProjectContent {
            id: format!("c{}", id),
            title: "Fix login".to_string(),
            body: None,
            url: "https://github.com/o/r/issues/1".to_string(),
            content_type: "Issue".to_string(),
        }),
        field_values: Some(vec![GitHubProjectFieldValue {
            field: GitHubProjectField {
                id: "f1".to_string(),
                name: "Status".to_string(),
                data_type: "SINGLE_SELECT".to_string(),
            },
            value: Some(JsonValue::Str("Todo".to_string())),
        }]),
    };
    let organized = organize_tasks_by_priority(vec![item("1"), item("2")]);
    assert!(matches!(organized.get("total"), Some(JsonValue::Unsigned(2))));
    assert!(matches!(organized.get("critical"), Some(JsonValue::Array(v)) if v.is_empty()));
    assert!(matches!(organized.get("low"), Some(JsonValue::Array(v)) if v.is_empty()));
    match organized.get("unclassified") {
        Some(JsonValue::Array(v)) => {
            assert_eq!(v.len(), 2);
            assert!(matches!(v[1].get("id"), Some(JsonValue::Str(s)) if s == "2"));
            let content = v[0].get("content").unwrap();
            assert!(matches!(content.get("type"), Some(JsonValue::Str(s)) if s == "Issue"));
        },
        _ => panic!("unclassified items expected"),
    }
}
