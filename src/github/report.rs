//! How workflow outcomes and errors are reported on the wire.

use vstd::prelude::*;
use crate::github::api::{GitHubProjectFieldValue, GitHubProjectItem, PullRequestSummary};
use crate::github::workflows::{GitOperation, ResultStatus, WorkflowError, WorkflowOutcome};
use crate::json::{JsonValue, at, elements, is_text, keys, opt_text_json, optional_text, put, text_value};
use crate::mcp::error_codes::{AUTHENTICATION_ERROR, GITHUB_API_ERROR, INTERNAL_ERROR, WORKFLOW_ERROR};

verus! {

/// Relies on chrono's `Utc::now` and `DateTime::to_rfc3339`: the time now, as
/// RFC 3339 text. Nothing is promised of the value.
#[verifier::external_body]
fn now_rfc3339() -> String {
    chrono::Utc::now().to_rfc3339()
}

/// The text of a status tag.
pub open spec fn status_text(s: ResultStatus) -> Seq<char> {
    match s {
        ResultStatus::Success => "success"@,
        ResultStatus::Warning => "warning"@,
        ResultStatus::Error => "error"@,
    }
}

fn status_value(s: &ResultStatus) -> (r: JsonValue)
    ensures
        is_text(r, status_text(*s)),
{
    match s {
        ResultStatus::Success => text_value("success"),
        ResultStatus::Warning => text_value("warning"),
        ResultStatus::Error => text_value("error"),
    }
}

/// `v` is an array of the strings `lines`, in order.
pub open spec fn is_text_list(v: JsonValue, lines: Seq<String>) -> bool {
    &&& v is Array
    &&& elements(v).len() == lines.len()
    &&& forall|i: int| 0 <= i < lines.len() ==> #[trigger] elements(v)[i] == JsonValue::Str(lines[i])
}

fn texts(lines: Vec<String>) -> (r: JsonValue)
    ensures
        is_text_list(r, lines@),
{
    let ghost all = lines@;
    let mut lines = lines;
    let mut items: Vec<JsonValue> = Vec::new();
    while lines.len() > 0
        invariant
            items@.len() + lines@.len() == all.len(),
            lines@ == all.subrange(items@.len() as int, all.len() as int),
            forall|j: int| 0 <= j < items@.len() ==> #[trigger] items@[j] == JsonValue::Str(all[j]),
        decreases lines@.len(),
    {
        let ghost k: int = items@.len() as int;
        let line = lines.remove(0);
        items.push(JsonValue::Str(line));
        assert(lines@ =~= all.subrange(k + 1, all.len() as int));
    }
    JsonValue::Array(items)
}

/// `v` is the JSON of the pull request `pr`: number, address, title and
/// draft flag, and `ready_for_review: true` when it was marked ready.
pub open spec fn is_pull_request_json(v: JsonValue, pr: PullRequestSummary, ready: bool) -> bool {
    &&& keys(v) == seq!["number"@, "url"@, "title"@, "draft"@] + (if ready {
        seq!["ready_for_review"@]
    } else {
        Seq::empty()
    })
    &&& at(v, 0) == JsonValue::Unsigned(pr.number)
    &&& at(v, 1) == JsonValue::Str(pr.url)
    &&& at(v, 2) == JsonValue::Str(pr.title)
    &&& at(v, 3) == JsonValue::Bool(pr.draft)
    &&& ready ==> at(v, 4) == JsonValue::Bool(true)
}

impl PullRequestSummary {
    /// Number, address, title and draft flag, and the ready mark if asked.
    pub fn to_json(self, ready: bool) -> (r: JsonValue)
        ensures
            is_pull_request_json(r, self, ready),
    {
        let ghost pr = self;
        let mut o: Vec<(String, JsonValue)> = Vec::new();
        put(&mut o, "number", JsonValue::Unsigned(self.number));
        put(&mut o, "url", JsonValue::Str(self.url));
        put(&mut o, "title", JsonValue::Str(self.title));
        put(&mut o, "draft", JsonValue::Bool(self.draft));
        let ghost four = o@;
        if ready {
            put(&mut o, "ready_for_review", JsonValue::Bool(true));
            assert(o@[0] == four[0] && o@[1] == four[1] && o@[2] == four[2] && o@[3] == four[3]);
            assert(keys(JsonValue::Object(o)) =~= seq!["number"@, "url"@, "title"@, "draft"@, "ready_for_review"@]);
        } else {
            assert(keys(JsonValue::Object(o)) =~= seq!["number"@, "url"@, "title"@, "draft"@]);
        }
        assert(keys(JsonValue::Object(o)) =~= seq!["number"@, "url"@, "title"@, "draft"@] + (if ready {
            seq!["ready_for_review"@]
        } else {
            Seq::empty()
        }));
        JsonValue::Object(o)
    }
}

/// `v` is the JSON of a project field value: the field's id, name and data
/// type, then the value (null when absent).
pub open spec fn is_field_value_json(v: JsonValue, f: GitHubProjectFieldValue) -> bool {
    &&& keys(v) == seq!["field"@, "value"@]
    &&& keys(at(v, 0)) == seq!["id"@, "name"@, "dataType"@]
    &&& at(at(v, 0), 0) == JsonValue::Str(f.field.id)
    &&& at(at(v, 0), 1) == JsonValue::Str(f.field.name)
    &&& at(at(v, 0), 2) == JsonValue::Str(f.field.data_type)
    &&& at(v, 1) == match f.value {
        Some(x) => x,
        None => JsonValue::Null,
    }
}

/// `v` is the JSON of a project item: its id, its content (null when
/// absent) and its field values (null when absent).
pub open spec fn is_item_json(v: JsonValue, item: GitHubProjectItem) -> bool {
    &&& keys(v) == seq!["id"@, "content"@, "field_values"@]
    &&& at(v, 0) == JsonValue::Str(item.id)
    &&& match item.content {
        Some(c) => {
            &&& keys(at(v, 1)) == seq!["id"@, "title"@, "body"@, "url"@, "type"@]
            &&& at(at(v, 1), 0) == JsonValue::Str(c.id)
            &&& at(at(v, 1), 1) == JsonValue::Str(c.title)
            &&& at(at(v, 1), 2) == opt_text_json(c.body)
            &&& at(at(v, 1), 3) == JsonValue::Str(c.url)
            &&& at(at(v, 1), 4) == JsonValue::Str(c.content_type)
        },
        None => at(v, 1) == JsonValue::Null,
    }
    &&& match item.field_values {
        Some(values) => {
            &&& at(v, 2) is Array
            &&& elements(at(v, 2)).len() == values@.len()
            &&& forall|i: int|
                0 <= i < values@.len() ==> is_field_value_json(#[trigger] elements(at(v, 2))[i], values@[i])
        },
        None => at(v, 2) == JsonValue::Null,
    }
}

fn field_value_json(v: GitHubProjectFieldValue) -> (r: JsonValue)
    ensures
        is_field_value_json(r, v),
{
    let ghost g = v;
    let mut f: Vec<(String, JsonValue)> = Vec::new();
    put(&mut f, "id", JsonValue::Str(v.field.id));
    put(&mut f, "name", JsonValue::Str(v.field.name));
    put(&mut f, "dataType", JsonValue::Str(v.field.data_type));
    assert(keys(JsonValue::Object(f)) =~= seq!["id"@, "name"@, "dataType"@]);
    let mut e: Vec<(String, JsonValue)> = Vec::new();
    put(&mut e, "field", JsonValue::Object(f));
    match v.value {
        Some(x) => put(&mut e, "value", x),
        None => put(&mut e, "value", JsonValue::Null),
    }
    assert(keys(JsonValue::Object(e)) =~= seq!["field"@, "value"@]);
    JsonValue::Object(e)
}

impl GitHubProjectItem {
    /// The item with its content and field values.
    pub fn to_json(self) -> (r: JsonValue)
        ensures
            is_item_json(r, self),
    {
        let ghost item = self;
        let mut o: Vec<(String, JsonValue)> = Vec::new();
        put(&mut o, "id", JsonValue::Str(self.id));
        match self.content {
            Some(c) => {
                let mut t: Vec<(String, JsonValue)> = Vec::new();
                put(&mut t, "id", JsonValue::Str(c.id));
                put(&mut t, "title", JsonValue::Str(c.title));
                put(&mut t, "body", optional_text(c.body));
                put(&mut t, "url", JsonValue::Str(c.url));
                put(&mut t, "type", JsonValue::Str(c.content_type));
                assert(keys(JsonValue::Object(t)) =~= seq!["id"@, "title"@, "body"@, "url"@, "type"@]);
                put(&mut o, "content", JsonValue::Object(t));
            },
            None => put(&mut o, "content", JsonValue::Null),
        }
        let ghost two = o@;
        match self.field_values {
            Some(values) => {
                let ghost all = values@;
                let mut values = values;
                let mut out: Vec<JsonValue> = Vec::new();
                while values.len() > 0
                    invariant
                        out@.len() + values@.len() == all.len(),
                        values@ == all.subrange(out@.len() as int, all.len() as int),
                        forall|j: int| 0 <= j < out@.len() ==> is_field_value_json(#[trigger] out@[j], all[j]),
                    decreases values@.len(),
                {
                    let ghost k: int = out@.len() as int;
                    let v = values.remove(0);
                    out.push(field_value_json(v));
                    assert(values@ =~= all.subrange(k + 1, all.len() as int));
                }
                put(&mut o, "field_values", JsonValue::Array(out));
            },
            None => put(&mut o, "field_values", JsonValue::Null),
        }
        assert(o@[0] == two[0] && o@[1] == two[1]);
        assert(keys(JsonValue::Object(o)) =~= seq!["id"@, "content"@, "field_values"@]);
        JsonValue::Object(o)
    }
}

/// `v` is an array of the JSON of `items`, in order.
pub open spec fn is_item_list(v: JsonValue, items: Seq<GitHubProjectItem>) -> bool {
    &&& v is Array
    &&& elements(v).len() == items.len()
    &&& forall|i: int| 0 <= i < items.len() ==> is_item_json(#[trigger] elements(v)[i], items[i])
}

fn items_value(items: Vec<GitHubProjectItem>) -> (r: JsonValue)
    ensures
        is_item_list(r, items@),
{
    let ghost all = items@;
    let mut items = items;
    let mut out: Vec<JsonValue> = Vec::new();
    while items.len() > 0
        invariant
            out@.len() + items@.len() == all.len(),
            items@ == all.subrange(out@.len() as int, all.len() as int),
            forall|j: int| 0 <= j < out@.len() ==> is_item_json(#[trigger] out@[j], all[j]),
        decreases items@.len(),
    {
        let ghost k: int = out@.len() as int;
        let item = items.remove(0);
        out.push(item.to_json());
        assert(items@ =~= all.subrange(k + 1, all.len() as int));
    }
    JsonValue::Array(out)
}

pub open spec fn is_empty_array(v: JsonValue) -> bool {
    v is Array && elements(v).len() == 0
}

/// `v` holds `items` sorted into the priority buckets: the total first, then
/// critical, high, medium and low, then `unclassified`. No item carries a
/// priority that this server reads, so the four buckets are empty and every
/// item, in order, stands under `unclassified`.
pub open spec fn is_task_buckets(v: JsonValue, items: Seq<GitHubProjectItem>) -> bool {
    &&& keys(v) == seq!["total"@, "critical"@, "high"@, "medium"@, "low"@, "unclassified"@]
    &&& at(v, 0) == JsonValue::Unsigned(items.len() as u64)
    &&& is_empty_array(at(v, 1))
    &&& is_empty_array(at(v, 2))
    &&& is_empty_array(at(v, 3))
    &&& is_empty_array(at(v, 4))
    &&& is_item_list(at(v, 5), items)
}

pub fn organize_tasks_by_priority(tasks: Vec<GitHubProjectItem>) -> (r: JsonValue)
    ensures
        is_task_buckets(r, tasks@),
{
    let total = tasks.len() as u64;
    let mut o: Vec<(String, JsonValue)> = Vec::new();
    put(&mut o, "total", JsonValue::Unsigned(total));
    put(&mut o, "critical", JsonValue::Array(Vec::new()));
    put(&mut o, "high", JsonValue::Array(Vec::new()));
    put(&mut o, "medium", JsonValue::Array(Vec::new()));
    put(&mut o, "low", JsonValue::Array(Vec::new()));
    put(&mut o, "unclassified", items_value(tasks));
    assert(keys(JsonValue::Object(o)) =~= seq!["total"@, "critical"@, "high"@, "medium"@, "low"@, "unclassified"@]);
    JsonValue::Object(o)
}

/// The protocol error code of a workflow error.
pub open spec fn error_code(e: WorkflowError) -> i32 {
    match e {
        WorkflowError::GitHubApi { .. } => GITHUB_API_ERROR,
        WorkflowError::Authentication { .. } => AUTHENTICATION_ERROR,
        WorkflowError::UnexpectedEvent => INTERNAL_ERROR,
        _ => WORKFLOW_ERROR,
    }
}

/// The name of a git operation, as error context gives it.
pub open spec fn operation_text(op: GitOperation) -> Seq<char> {
    match op {
        GitOperation::CurrentBranch => "current-branch"@,
        GitOperation::Status => "status"@,
        GitOperation::Commit => "commit"@,
        GitOperation::Push => "push"@,
        GitOperation::Checkout => "checkout"@,
        GitOperation::Pull => "pull"@,
    }
}

/// The message of a workflow error.
pub open spec fn error_message(e: WorkflowError) -> Seq<char> {
    match e {
        WorkflowError::OnMainBranch { .. } => "Already on main branch. Switch to feature branch first."@,
        WorkflowError::NoProjectNumber => "No GitHub Project number found. Please specify project_number or add it to TODO.md"@,
        WorkflowError::NoPullRequest { branch } => "No pull request found for branch "@ + branch@,
        WorkflowError::ChecksFailed { detail, .. } => "Pre-merge checks failed: "@ + detail@,
        WorkflowError::Git { operation, detail } => "Git "@ + operation_text(operation) + " failed: "@ + detail@,
        WorkflowError::GitHubApi { detail } => "GitHub API error: "@ + detail@,
        WorkflowError::Authentication { detail } => "Authentication error: "@ + detail@,
        WorkflowError::UnexpectedEvent => "The workflow was answered with an event that does not fit its step"@,
    }
}

/// The structured context of a workflow error: the branch concerned, or the
/// stage that failed with what it reported; none for the others.
pub open spec fn is_error_data(d: Option<JsonValue>, e: WorkflowError) -> bool {
    match e {
        WorkflowError::OnMainBranch { branch } | WorkflowError::NoPullRequest { branch } => d matches Some(v) && keys(v)
            == seq!["branch"@] && at(v, 0) == JsonValue::Str(branch),
        WorkflowError::ChecksFailed { number, .. } => d matches Some(v) && keys(v) == seq!["stage"@, "pull_request"@]
            && is_text(at(v, 0), "checks"@) && at(v, 1) == JsonValue::Unsigned(number),
        WorkflowError::Git { operation, detail } => d matches Some(v) && keys(v) == seq!["stage"@, "stderr"@] && is_text(
            at(v, 0),
            operation_text(operation),
        ) && at(v, 1) == JsonValue::Str(detail),
        _ => d is None,
    }
}

fn joined(prefix: &str, rest: &str) -> (r: String)
    ensures
        r@ == prefix@ + rest@,
{
    let mut m = String::from_str(prefix);
    m.append(rest);
    m
}

fn operation_name(op: &GitOperation) -> (r: &'static str)
    ensures
        r@ == operation_text(*op),
{
    match op {
        GitOperation::CurrentBranch => "current-branch",
        GitOperation::Status => "status",
        GitOperation::Commit => "commit",
        GitOperation::Push => "push",
        GitOperation::Checkout => "checkout",
        GitOperation::Pull => "pull",
    }
}

fn branch_data(branch: String) -> (r: Option<JsonValue>)
    ensures
        r matches Some(v) && keys(v) == seq!["branch"@] && at(v, 0) == JsonValue::Str(branch),
{
    let mut d: Vec<(String, JsonValue)> = Vec::new();
    put(&mut d, "branch", JsonValue::Str(branch));
    assert(keys(JsonValue::Object(d)) =~= seq!["branch"@]);
    Some(JsonValue::Object(d))
}

impl WorkflowError {
    /// The code, message and structured context of the error response.
    pub fn into_parts(self) -> (r: (i32, String, Option<JsonValue>))
        ensures
            r.0 == error_code(self),
            r.1@ == error_message(self),
            is_error_data(r.2, self),
    {
        match self {
            WorkflowError::OnMainBranch { branch } => (
                WORKFLOW_ERROR,
                String::from_str("Already on main branch. Switch to feature branch first."),
                branch_data(branch),
            ),
            WorkflowError::NoProjectNumber => (
                WORKFLOW_ERROR,
                String::from_str(
                    "No GitHub Project number found. Please specify project_number or add it to TODO.md",
                ),
                None,
            ),
            WorkflowError::NoPullRequest { branch } => {
                let m = joined("No pull request found for branch ", branch.as_str());
                (WORKFLOW_ERROR, m, branch_data(branch))
            },
            WorkflowError::ChecksFailed { number, detail } => {
                let m = joined("Pre-merge checks failed: ", detail.as_str());
                let mut d: Vec<(String, JsonValue)> = Vec::new();
                put(&mut d, "stage", text_value("checks"));
                put(&mut d, "pull_request", JsonValue::Unsigned(number));
                assert(keys(JsonValue::Object(d)) =~= seq!["stage"@, "pull_request"@]);
                (WORKFLOW_ERROR, m, Some(JsonValue::Object(d)))
            },
            WorkflowError::Git { operation, detail } => {
                let name = operation_name(&operation);
                let mut m = joined("Git ", name);
                m.append(" failed: ");
                m.append(detail.as_str());
                let mut d: Vec<(String, JsonValue)> = Vec::new();
                put(&mut d, "stage", text_value(name));
                put(&mut d, "stderr", JsonValue::Str(detail));
                assert(keys(JsonValue::Object(d)) =~= seq!["stage"@, "stderr"@]);
                (WORKFLOW_ERROR, m, Some(JsonValue::Object(d)))
            },
            WorkflowError::GitHubApi { detail } => (GITHUB_API_ERROR, joined("GitHub API error: ", detail.as_str()), None),
            WorkflowError::Authentication { detail } => (
                AUTHENTICATION_ERROR,
                joined("Authentication error: ", detail.as_str()),
                None,
            ),
            WorkflowError::UnexpectedEvent => (
                INTERNAL_ERROR,
                String::from_str("The workflow was answered with an event that does not fit its step"),
                None,
            ),
        }
    }
}

pub const UNCOMMITTED_MESSAGE: &'static str = "Uncommitted changes detected. Please commit or provide a commit message.";

pub const READY_MESSAGE: &'static str = "Pushed and marked PR as ready for review!";

pub const SUGGESTION: &'static str = "Consider creating a pull request for this branch";

pub const MERGED_MESSAGE: &'static str = "Production deployment complete!";

pub const TASKS_MESSAGE: &'static str = "GitHub Project Tasks Available";

pub const TASKS_INSTRUCTIONS: &'static str = "Select a task number to start working on it";

/// What a result payload holds for its outcome, member by member: the status
/// tag first, then what the command found or did. A timestamp, where there
/// is one, is the time of writing and is not fixed here.
pub open spec fn reports(o: WorkflowOutcome, v: JsonValue) -> bool {
    &&& is_text(at(v, 0), status_text(o.status()))
    &&& match o {
        WorkflowOutcome::PushOnMainBranch { branch, main_branch } => {
            &&& keys(v) == seq!["status"@, "message"@, "branch"@, "requires_confirmation"@]
            &&& is_text(at(v, 1), "You're on main branch ("@ + main_branch@ + "). Are you sure you want to push?"@)
            &&& at(v, 2) == JsonValue::Str(branch)
            &&& at(v, 3) == JsonValue::Bool(true)
        },
        WorkflowOutcome::UncommittedChanges { changes } => {
            &&& keys(v) == seq!["status"@, "message"@, "uncommitted_changes"@]
            &&& is_text(at(v, 1), UNCOMMITTED_MESSAGE@)
            &&& is_text_list(at(v, 2), changes@)
        },
        WorkflowOutcome::Pushed { branch, pull_request, ready_for_review } => {
            &&& is_text(
                at(v, 1),
                if ready_for_review {
                    READY_MESSAGE@
                } else {
                    "Pushed to feature branch: "@ + branch@
                },
            )
            &&& at(v, 2) == JsonValue::Str(branch)
            &&& match pull_request {
                Some(pr) => keys(v) == seq!["status"@, "message"@, "branch"@, "pull_request"@]
                    && is_pull_request_json(at(v, 3), pr, ready_for_review),
                None => keys(v) == seq!["status"@, "message"@, "branch"@, "suggestion"@] && is_text(
                    at(v, 3),
                    SUGGESTION@,
                ),
            }
        },
        WorkflowOutcome::TasksScanned { project_number, items, filter_type, status } => {
            &&& keys(v) == seq![
                "status"@,
                "project_number"@,
                "tasks"@,
                "filters"@,
                "message"@,
                "instructions"@,
            ]
            &&& at(v, 1) == JsonValue::Str(project_number)
            &&& is_task_buckets(at(v, 2), items@)
            &&& keys(at(v, 3)) == seq!["type"@, "status"@]
            &&& at(at(v, 3), 0) == opt_text_json(filter_type)
            &&& at(at(v, 3), 1) == opt_text_json(status)
            &&& is_text(at(v, 4), TASKS_MESSAGE@)
            &&& is_text(at(v, 5), TASKS_INSTRUCTIONS@)
        },
        WorkflowOutcome::Merged { pull_request, main_branch, branch_deleted, work_folder_cleaned } => {
            &&& keys(v) == seq![
                "status"@,
                "message"@,
                "merged_pr"@,
                "current_branch"@,
                "branch_deleted"@,
                "work_folder_cleaned"@,
                "timestamp"@,
            ]
            &&& is_text(at(v, 1), MERGED_MESSAGE@)
            &&& keys(at(v, 2)) == seq!["number"@, "url"@, "title"@]
            &&& at(at(v, 2), 0) == JsonValue::Unsigned(pull_request.number)
            &&& at(at(v, 2), 1) == JsonValue::Str(pull_request.url)
            &&& at(at(v, 2), 2) == JsonValue::Str(pull_request.title)
            &&& at(v, 3) == JsonValue::Str(main_branch)
            &&& at(v, 4) == JsonValue::Bool(branch_deleted)
            &&& at(v, 5) == JsonValue::Bool(work_folder_cleaned)
            &&& at(v, 6) is Str
        },
        WorkflowOutcome::WorkingTree { branch, changes, pull_request } => {
            &&& keys(v) == seq![
                "status"@,
                "message"@,
                "current_branch"@,
                "has_uncommitted_changes"@,
                "git_status"@,
                "pull_request"@,
                "timestamp"@,
            ]
            &&& is_text(at(v, 1), "Working tree status"@)
            &&& at(v, 2) == JsonValue::Str(branch)
            &&& at(v, 3) == JsonValue::Bool(changes@.len() > 0)
            &&& is_text_list(at(v, 4), changes@)
            &&& match pull_request {
                Some(pr) => is_pull_request_json(at(v, 5), pr, false),
                None => at(v, 5) == JsonValue::Null,
            }
            &&& at(v, 6) is Str
        },
        WorkflowOutcome::ProjectTasks { project_number, items } => {
            &&& keys(v) == seq!["status"@, "message"@, "project_number"@, "tasks"@, "total_count"@, "timestamp"@]
            &&& is_text(at(v, 1), "Project tasks"@)
            &&& at(v, 2) == JsonValue::Str(project_number)
            &&& is_item_list(at(v, 3), items@)
            &&& at(v, 4) == JsonValue::Unsigned(items@.len() as u64)
            &&& at(v, 5) is Str
        },
    }
}

impl WorkflowOutcome {
    /// The result payload.
    pub fn to_json(self) -> (r: JsonValue)
        ensures
            reports(self, r),
    {
        let ghost this = self;
        let status = self.result_status();
        let mut o: Vec<(String, JsonValue)> = Vec::new();
        put(&mut o, "status", status_value(&status));
        let ghost first = o@;
        match self {
            WorkflowOutcome::PushOnMainBranch { branch, main_branch } => {
                let mut m = joined("You're on main branch (", main_branch.as_str());
                m.append("). Are you sure you want to push?");
                put(&mut o, "message", JsonValue::Str(m));
                put(&mut o, "branch", JsonValue::Str(branch));
                put(&mut o, "requires_confirmation", JsonValue::Bool(true));
                assert(keys(JsonValue::Object(o)) =~= seq!["status"@, "message"@, "branch"@, "requires_confirmation"@]);
            },
            WorkflowOutcome::UncommittedChanges { changes } => {
                put(&mut o, "message", text_value(UNCOMMITTED_MESSAGE));
                put(&mut o, "uncommitted_changes", texts(changes));
                assert(keys(JsonValue::Object(o)) =~= seq!["status"@, "message"@, "uncommitted_changes"@]);
            },
            WorkflowOutcome::Pushed { branch, pull_request, ready_for_review } => {
                if ready_for_review {
                    put(&mut o, "message", text_value(READY_MESSAGE));
                } else {
                    put(&mut o, "message", JsonValue::Str(joined("Pushed to feature branch: ", branch.as_str())));
                }
                put(&mut o, "branch", JsonValue::Str(branch));
                let ghost three = o@;
                match pull_request {
                    Some(pr) => {
                        put(&mut o, "pull_request", pr.to_json(ready_for_review));
                        assert(o@[0] == three[0] && o@[1] == three[1] && o@[2] == three[2]);
                        assert(keys(JsonValue::Object(o)) =~= seq!["status"@, "message"@, "branch"@, "pull_request"@]);
                    },
                    None => {
                        put(&mut o, "suggestion", text_value(SUGGESTION));
                        assert(o@[0] == three[0] && o@[1] == three[1] && o@[2] == three[2]);
                        assert(keys(JsonValue::Object(o)) =~= seq!["status"@, "message"@, "branch"@, "suggestion"@]);
                    },
                }
            },
            WorkflowOutcome::TasksScanned { project_number, items, filter_type, status } => {
                put(&mut o, "project_number", JsonValue::Str(project_number));
                put(&mut o, "tasks", organize_tasks_by_priority(items));
                let mut f: Vec<(String, JsonValue)> = Vec::new();
                put(&mut f, "type", optional_text(filter_type));
                put(&mut f, "status", optional_text(status));
                assert(keys(JsonValue::Object(f)) =~= seq!["type"@, "status"@]);
                put(&mut o, "filters", JsonValue::Object(f));
                put(&mut o, "message", text_value(TASKS_MESSAGE));
                put(&mut o, "instructions", text_value(TASKS_INSTRUCTIONS));
                assert(keys(JsonValue::Object(o)) =~= seq![
                    "status"@,
                    "project_number"@,
                    "tasks"@,
                    "filters"@,
                    "message"@,
                    "instructions"@,
                ]);
            },
            WorkflowOutcome::Merged { pull_request, main_branch, branch_deleted, work_folder_cleaned } => {
                put(&mut o, "message", text_value(MERGED_MESSAGE));
                let mut p: Vec<(String, JsonValue)> = Vec::new();
                put(&mut p, "number", JsonValue::Unsigned(pull_request.number));
                put(&mut p, "url", JsonValue::Str(pull_request.url));
                put(&mut p, "title", JsonValue::Str(pull_request.title));
                assert(keys(JsonValue::Object(p)) =~= seq!["number"@, "url"@, "title"@]);
                put(&mut o, "merged_pr", JsonValue::Object(p));
                put(&mut o, "current_branch", JsonValue::Str(main_branch));
                put(&mut o, "branch_deleted", JsonValue::Bool(branch_deleted));
                put(&mut o, "work_folder_cleaned", JsonValue::Bool(work_folder_cleaned));
                put(&mut o, "timestamp", JsonValue::Str(now_rfc3339()));
                assert(keys(JsonValue::Object(o)) =~= seq![
                    "status"@,
                    "message"@,
                    "merged_pr"@,
                    "current_branch"@,
                    "branch_deleted"@,
                    "work_folder_cleaned"@,
                    "timestamp"@,
                ]);
            },
            WorkflowOutcome::WorkingTree { branch, changes, pull_request } => {
                put(&mut o, "message", text_value("Working tree status"));
                put(&mut o, "current_branch", JsonValue::Str(branch));
                put(&mut o, "has_uncommitted_changes", JsonValue::Bool(changes.len() > 0));
                put(&mut o, "git_status", texts(changes));
                match pull_request {
                    Some(pr) => put(&mut o, "pull_request", pr.to_json(false)),
                    None => put(&mut o, "pull_request", JsonValue::Null),
                }
                put(&mut o, "timestamp", JsonValue::Str(now_rfc3339()));
                assert(keys(JsonValue::Object(o)) =~= seq![
                    "status"@,
                    "message"@,
                    "current_branch"@,
                    "has_uncommitted_changes"@,
                    "git_status"@,
                    "pull_request"@,
                    "timestamp"@,
                ]);
            },
            WorkflowOutcome::ProjectTasks { project_number, items } => {
                let total = items.len() as u64;
                put(&mut o, "message", text_value("Project tasks"));
                put(&mut o, "project_number", JsonValue::Str(project_number));
                put(&mut o, "tasks", items_value(items));
                put(&mut o, "total_count", JsonValue::Unsigned(total));
                put(&mut o, "timestamp", JsonValue::Str(now_rfc3339()));
                assert(keys(JsonValue::Object(o)) =~= seq![
                    "status"@,
                    "message"@,
                    "project_number"@,
                    "tasks"@,
                    "total_count"@,
                    "timestamp"@,
                ]);
            },
        }
        assert(o@[0] == first[0]);
        JsonValue::Object(o)
    }
}

} // verus!
