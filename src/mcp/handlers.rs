//! The request dispatcher. A request is either answered at once, or routed
//! to a workflow (a command or a resource read) whose outcome is then turned
//! into the response. Every response carries the request's correlation id.

use vstd::prelude::*;
use crate::github::report::{error_code, error_message, is_error_data, reports};
use crate::github::workflows::{WorkflowError, WorkflowOutcome};
use crate::json::{JsonValue, at, elements, is_text, keys, opt_flag_json, opt_text_json, put, str_equal, text_value};
use crate::mcp::error_codes::{INVALID_PARAMS, METHOD_NOT_FOUND, PARSE_ERROR};
use crate::mcp::methods::{
    GITHUB_MERGE, GITHUB_PUSH, GITHUB_SCAN_TASKS, INITIALIZE, RESOURCES_LIST, RESOURCES_READ, TOOLS_CALL,
    TOOLS_LIST, is_known_method,
};
use crate::mcp::protocol::{
    GitHubCommand, JSONRPC_VERSION, MCP_VERSION, McpRequest, McpResource, McpResponse, McpTool, ServerCapabilities,
};

verus! {

pub const TOOL_PUSH: &'static str = "github_push";

pub const TOOL_SCAN_TASKS: &'static str = "github_scan_tasks";

pub const TOOL_MERGE: &'static str = "github_merge";

pub const WORKFLOW_STATUS_URI: &'static str = "github://workflow/status";

pub const PROJECT_TASKS_URI: &'static str = "github://projects/tasks";

/// The resources that `resources/read` serves.
#[derive(Debug, PartialEq, Eq, Structural)]
pub enum ResourceKind {
    WorkflowStatus,
    ProjectTasks,
}

/// Where a request goes.
#[derive(Debug)]
pub enum Route {
    /// Answered at once.
    Reply(McpResponse),
    /// Run the workflow of `command`, then answer with `command_response`.
    Command { id: Option<JsonValue>, command: GitHubCommand },
    /// Read `resource`, then answer with `resource_response`.
    Resource { id: Option<JsonValue>, resource: ResourceKind },
}

impl Route {
    /// The correlation id that the answer will carry.
    pub open spec fn id(&self) -> Option<JsonValue> {
        match self {
            Route::Reply(r) => r.id,
            Route::Command { id, .. } => *id,
            Route::Resource { id, .. } => *id,
        }
    }
}

/// The view of an optional string.
pub open spec fn opt_view(o: Option<String>) -> Option<Seq<char>> {
    match o {
        Some(s) => Some(s@),
        None => None,
    }
}

/// `r` is an error reply with correlation id `id`, code `code`, message
/// `msg` and no data.
pub open spec fn is_error_reply(r: Route, id: Option<JsonValue>, code: i32, msg: Seq<char>) -> bool {
    r matches Route::Reply(resp) && is_error_response(resp, id, code, msg)
}

/// `resp` is an error response with correlation id `id`, code `code`,
/// message `msg` and no data.
pub open spec fn is_error_response(resp: McpResponse, id: Option<JsonValue>, code: i32, msg: Seq<char>) -> bool {
    &&& resp.id == id
    &&& resp.is_well_formed()
    &&& resp.jsonrpc@ == JSONRPC_VERSION@
    &&& resp.error matches Some(e) && e.code == code && e.message@ == msg && e.data is None
}

/// A string parameter read leniently: its text when it is a string.
pub open spec fn text_member(params: Option<JsonValue>, key: Seq<char>) -> Option<Seq<char>> {
    match params {
        Some(p) => match p.field(key) {
            Some(JsonValue::Str(s)) => Some(s@),
            _ => None,
        },
        None => None,
    }
}

/// A flag parameter read leniently: its value when it is a boolean.
pub open spec fn flag_member(params: Option<JsonValue>, key: Seq<char>) -> Option<bool> {
    match params {
        Some(p) => match p.field(key) {
            Some(JsonValue::Bool(b)) => Some(b),
            _ => None,
        },
        None => None,
    }
}

/// A string argument of a tool call: absent or null, a string, or malformed.
pub open spec fn text_argument(args: JsonValue, key: Seq<char>) -> Result<Option<Seq<char>>, ()> {
    match args.field(key) {
        None => Ok(None),
        Some(JsonValue::Null) => Ok(None),
        Some(JsonValue::Str(s)) => Ok(Some(s@)),
        _ => Err(()),
    }
}

/// A flag argument of a tool call: absent or null, a boolean, or malformed.
pub open spec fn flag_argument(args: JsonValue, key: Seq<char>) -> Result<Option<bool>, ()> {
    match args.field(key) {
        None => Ok(None),
        Some(JsonValue::Null) => Ok(None),
        Some(JsonValue::Bool(b)) => Ok(Some(b)),
        _ => Err(()),
    }
}

/// The arguments of a tool call: absent or null stands for no argument, an
/// object for its members; anything else is malformed.
pub open spec fn arguments_of(params: JsonValue) -> Result<JsonValue, ()> {
    match params.field("arguments"@) {
        None => Ok(JsonValue::Null),
        Some(JsonValue::Null) => Ok(JsonValue::Null),
        Some(JsonValue::Object(entries)) => Ok(JsonValue::Object(entries)),
        _ => Err(()),
    }
}

/// The command that the arguments `args` of tool `tool` ask for, if they are
/// well formed; `tool` is one of the three tool names.
pub open spec fn tool_command(tool: Seq<char>, args: JsonValue, c: GitHubCommand) -> bool {
    if tool == TOOL_PUSH@ {
        c matches GitHubCommand::Push { branch, message, ready_for_review }
            && text_argument(args, "branch"@) == Ok::<_, ()>(opt_view(branch))
            && text_argument(args, "message"@) == Ok::<_, ()>(opt_view(message))
            && flag_argument(args, "ready_for_review"@) == Ok::<_, ()>(ready_for_review)
    } else if tool == TOOL_SCAN_TASKS@ {
        c matches GitHubCommand::ScanTasks { project_number, filter_type, status }
            && text_argument(args, "project_number"@) == Ok::<_, ()>(opt_view(project_number))
            && text_argument(args, "filter_type"@) == Ok::<_, ()>(opt_view(filter_type))
            && text_argument(args, "status"@) == Ok::<_, ()>(opt_view(status))
    } else {
        c matches GitHubCommand::Merge { branch, delete_branch, cleanup_work_folder }
            && text_argument(args, "branch"@) == Ok::<_, ()>(opt_view(branch))
            && flag_argument(args, "delete_branch"@) == Ok::<_, ()>(delete_branch)
            && flag_argument(args, "cleanup_work_folder"@) == Ok::<_, ()>(cleanup_work_folder)
    }
}

/// Whether every argument that tool `tool` reads is well formed.
pub open spec fn tool_arguments_valid(tool: Seq<char>, args: JsonValue) -> bool {
    if tool == TOOL_PUSH@ {
        text_argument(args, "branch"@) is Ok && text_argument(args, "message"@) is Ok
            && flag_argument(args, "ready_for_review"@) is Ok
    } else if tool == TOOL_SCAN_TASKS@ {
        text_argument(args, "project_number"@) is Ok && text_argument(args, "filter_type"@) is Ok
            && text_argument(args, "status"@) is Ok
    } else {
        text_argument(args, "branch"@) is Ok && flag_argument(args, "delete_branch"@) is Ok
            && flag_argument(args, "cleanup_work_folder"@) is Ok
    }
}

pub open spec fn is_tool_name(name: Seq<char>) -> bool {
    name == TOOL_PUSH@ || name == TOOL_SCAN_TASKS@ || name == TOOL_MERGE@
}

/// Where `tools/call` with `params` goes.
pub open spec fn tools_call_route(id: Option<JsonValue>, params: Option<JsonValue>, r: Route) -> bool {
    match params {
        None => is_error_reply(r, id, INVALID_PARAMS, "Missing parameters for tools/call"@),
        Some(p) => match p.field("name"@) {
            Some(JsonValue::Str(name)) => if !is_tool_name(name@) {
                is_error_reply(r, id, METHOD_NOT_FOUND, "Unknown tool: "@ + name@)
            } else {
                match arguments_of(p) {
                    Ok(args) => if tool_arguments_valid(name@, args) {
                        r matches Route::Command { id: rid, command } && rid == id && tool_command(name@, args, command)
                    } else {
                        is_error_reply(r, id, INVALID_PARAMS, "Malformed arguments for tool: "@ + name@)
                    },
                    Err(_) => is_error_reply(r, id, INVALID_PARAMS, "Malformed arguments for tool: "@ + name@),
                }
            },
            _ => is_error_reply(r, id, INVALID_PARAMS, "Missing tool name"@),
        },
    }
}

/// Where `resources/read` with `params` goes.
pub open spec fn resources_read_route(id: Option<JsonValue>, params: Option<JsonValue>, r: Route) -> bool {
    match text_member(params, "uri"@) {
        None => is_error_reply(r, id, INVALID_PARAMS, "Missing URI for resources/read"@),
        Some(uri) => if uri == WORKFLOW_STATUS_URI@ {
            r == (Route::Resource { id, resource: ResourceKind::WorkflowStatus })
        } else if uri == PROJECT_TASKS_URI@ {
            r == (Route::Resource { id, resource: ResourceKind::ProjectTasks })
        } else {
            is_error_reply(r, id, METHOD_NOT_FOUND, "Unknown resource: "@ + uri)
        },
    }
}

/// A message made of a fixed text and a name.
fn message_with(prefix: &str, name: &str) -> (r: String)
    ensures
        r@ == prefix@ + name@,
{
    let mut m = String::from_str(prefix);
    m.append(name);
    m
}

fn error_reply(id: Option<JsonValue>, code: i32, message: String) -> (r: Route)
    ensures
        is_error_reply(r, id, code, message@),
{
    Route::Reply(McpResponse::error(id, code, message, None))
}

/// A lenient string parameter.
fn text_param(params: &Option<JsonValue>, key: &str) -> (r: Option<String>)
    ensures
        opt_view(r) == text_member(*params, key@),
{
    match params {
        Some(p) => match p.get(key) {
            Some(v) => match v.as_str() {
                Some(s) => Some(s.clone()),
                None => None,
            },
            None => None,
        },
        None => None,
    }
}

/// A lenient flag parameter.
fn flag_param(params: &Option<JsonValue>, key: &str) -> (r: Option<bool>)
    ensures
        r == flag_member(*params, key@),
{
    match params {
        Some(p) => match p.get(key) {
            Some(v) => v.as_bool(),
            None => None,
        },
        None => None,
    }
}

/// A strict string argument.
fn text_arg(args: &JsonValue, key: &str) -> (r: Result<Option<String>, ()>)
    ensures
        match r {
            Ok(o) => text_argument(*args, key@) == Ok::<_, ()>(opt_view(o)),
            Err(_) => text_argument(*args, key@) is Err,
        },
{
    match args.get(key) {
        None => Ok(None),
        Some(JsonValue::Null) => Ok(None),
        Some(JsonValue::Str(s)) => Ok(Some(s.clone())),
        Some(_) => Err(()),
    }
}

/// A strict flag argument.
fn flag_arg(args: &JsonValue, key: &str) -> (r: Result<Option<bool>, ()>)
    ensures
        match r {
            Ok(o) => flag_argument(*args, key@) == Ok::<_, ()>(o),
            Err(_) => flag_argument(*args, key@) is Err,
        },
{
    match args.get(key) {
        None => Ok(None),
        Some(JsonValue::Null) => Ok(None),
        Some(JsonValue::Bool(b)) => Ok(Some(*b)),
        Some(_) => Err(()),
    }
}

/// The command of a tool call whose tool name is known.
fn tool_call_command(tool: &str, args: &JsonValue) -> (r: Option<GitHubCommand>)
    requires
        is_tool_name(tool@),
    ensures
        match r {
            Some(c) => tool_arguments_valid(tool@, *args) && tool_command(tool@, *args, c),
            None => !tool_arguments_valid(tool@, *args),
        },
{
    if str_equal(tool, TOOL_PUSH) {
        let branch = text_arg(args, "branch");
        let message = text_arg(args, "message");
        let ready = flag_arg(args, "ready_for_review");
        match (branch, message, ready) {
            (Ok(branch), Ok(message), Ok(ready_for_review)) => Some(
                GitHubCommand::Push { branch, message, ready_for_review },
            ),
            _ => None,
        }
    } else if str_equal(tool, TOOL_SCAN_TASKS) {
        let project_number = text_arg(args, "project_number");
        let filter_type = text_arg(args, "filter_type");
        let status = text_arg(args, "status");
        match (project_number, filter_type, status) {
            (Ok(project_number), Ok(filter_type), Ok(status)) => Some(
                GitHubCommand::ScanTasks { project_number, filter_type, status },
            ),
            _ => None,
        }
    } else {
        let branch = text_arg(args, "branch");
        let delete_branch = flag_arg(args, "delete_branch");
        let cleanup = flag_arg(args, "cleanup_work_folder");
        match (branch, delete_branch, cleanup) {
            (Ok(branch), Ok(delete_branch), Ok(cleanup_work_folder)) => Some(
                GitHubCommand::Merge { branch, delete_branch, cleanup_work_folder },
            ),
            _ => None,
        }
    }
}

/// Routes `tools/call`: the tool named by `name`, with the members of
/// `arguments` mapped field by field onto its command.
pub fn handle_tools_call(id: Option<JsonValue>, params: &Option<JsonValue>) -> (r: Route)
    ensures
        tools_call_route(id, *params, r),
{
    let p = match params {
        Some(p) => p,
        None => {
            return error_reply(id, INVALID_PARAMS, String::from_str("Missing parameters for tools/call"));
        },
    };
    let name = match p.get("name") {
        Some(JsonValue::Str(name)) => name,
        _ => {
            return error_reply(id, INVALID_PARAMS, String::from_str("Missing tool name"));
        },
    };
    let known = str_equal(name.as_str(), TOOL_PUSH) || str_equal(name.as_str(), TOOL_SCAN_TASKS) || str_equal(
        name.as_str(),
        TOOL_MERGE,
    );
    if !known {
        return error_reply(id, METHOD_NOT_FOUND, message_with("Unknown tool: ", name.as_str()));
    }
    let no_arguments = JsonValue::Null;
    let args: &JsonValue = match p.get("arguments") {
        None => &no_arguments,
        Some(v) => match v {
            JsonValue::Null => &no_arguments,
            JsonValue::Object(_) => v,
            _ => {
                return error_reply(id, INVALID_PARAMS, message_with("Malformed arguments for tool: ", name.as_str()));
            },
        },
    };
    match tool_call_command(name.as_str(), args) {
        Some(command) => Route::Command { id, command },
        None => error_reply(id, INVALID_PARAMS, message_with("Malformed arguments for tool: ", name.as_str())),
    }
}

/// Routes `resources/read`: the resource named by the `uri` parameter.
pub fn handle_resources_read(id: Option<JsonValue>, params: &Option<JsonValue>) -> (r: Route)
    ensures
        resources_read_route(id, *params, r),
{
    let uri = match text_param(params, "uri") {
        Some(uri) => uri,
        None => {
            return error_reply(id, INVALID_PARAMS, String::from_str("Missing URI for resources/read"));
        },
    };
    if str_equal(uri.as_str(), WORKFLOW_STATUS_URI) {
        Route::Resource { id, resource: ResourceKind::WorkflowStatus }
    } else if str_equal(uri.as_str(), PROJECT_TASKS_URI) {
        Route::Resource { id, resource: ResourceKind::ProjectTasks }
    } else {
        error_reply(id, METHOD_NOT_FOUND, message_with("Unknown resource: ", uri.as_str()))
    }
}

pub const PUSH_DESCRIPTION: &'static str = "Intelligent git push with PR management and workflow automation";

pub const SCAN_TASKS_DESCRIPTION: &'static str = "Scan GitHub Projects for tasks and present organized by type/priority";

pub const MERGE_DESCRIPTION: &'static str = "Complete merge workflow with tests, cleanup, and project updates";

/// The arguments of each tool, in schema order.
pub open spec fn push_arguments() -> Seq<Seq<char>> {
    seq!["branch"@, "message"@, "ready_for_review"@]
}

pub open spec fn scan_tasks_arguments() -> Seq<Seq<char>> {
    seq!["project_number"@, "filter_type"@, "status"@]
}

pub open spec fn merge_arguments() -> Seq<Seq<char>> {
    seq!["branch"@, "delete_branch"@, "cleanup_work_folder"@]
}

/// `v` is an object schema whose properties are named `names`, in order.
pub open spec fn is_object_schema(v: JsonValue, names: Seq<Seq<char>>) -> bool {
    &&& keys(v) == seq!["type"@, "properties"@]
    &&& is_text(at(v, 0), "object"@)
    &&& keys(at(v, 1)) == names
}

/// `v` is a schema property of JSON type `kind` with `description`.
pub open spec fn is_property(v: JsonValue, kind: Seq<char>, description: Seq<char>) -> bool {
    &&& keys(v) == seq!["type"@, "description"@]
    &&& is_text(at(v, 0), kind)
    &&& is_text(at(v, 1), description)
}

/// The task types that `filter_type` accepts, in order.
pub open spec fn task_types() -> Seq<Seq<char>> {
    seq!["bug"@, "feature"@, "enhancement"@, "documentation"@, "refactor"@, "test"@, "chore"@]
}

/// The property types and descriptions of each tool's arguments.
pub open spec fn is_tool_properties(name: Seq<char>, p: JsonValue) -> bool {
    if name == TOOL_PUSH@ {
        &&& is_property(at(p, 0), "string"@, "Branch to push (defaults to current branch)"@)
        &&& is_property(at(p, 1), "string"@, "Optional commit message if changes need to be committed"@)
        &&& is_property(at(p, 2), "boolean"@, "Mark PR as ready for review after push"@)
    } else if name == TOOL_SCAN_TASKS@ {
        &&& is_property(at(p, 0), "string"@, "GitHub Project number (optional, will auto-detect from TODO.md)"@)
        &&& keys(at(p, 1)) == seq!["type"@, "enum"@, "description"@]
        &&& is_text(at(at(p, 1), 0), "string"@)
        &&& at(at(p, 1), 1) is Array
        &&& elements(at(at(p, 1), 1)).len() == task_types().len()
        &&& forall|i: int|
            0 <= i < task_types().len() ==> is_text(#[trigger] elements(at(at(p, 1), 1))[i], task_types()[i])
        &&& is_text(at(at(p, 1), 2), "Filter tasks by type"@)
        &&& is_property(at(p, 2), "string"@, "Filter tasks by status (In Progress, To Do, etc.)"@)
    } else {
        &&& is_property(at(p, 0), "string"@, "Branch to merge (defaults to current branch)"@)
        &&& is_property(at(p, 1), "boolean"@, "Delete branch after merge (default: true)"@)
        &&& is_property(at(p, 2), "boolean"@, "Clean up work folder after merge (default: ask user)"@)
    }
}

/// `t` is the tool `name` with `description` and arguments `args`.
pub open spec fn is_tool(t: McpTool, name: Seq<char>, description: Seq<char>, args: Seq<Seq<char>>) -> bool {
    t.name@ == name && t.description@ == description && is_object_schema(t.input_schema, args)
        && is_tool_properties(name, at(t.input_schema, 1))
}

/// `v` is the JSON of the tool `name` with `description` and arguments `args`.
pub open spec fn is_tool_json(v: JsonValue, name: Seq<char>, description: Seq<char>, args: Seq<Seq<char>>) -> bool {
    &&& keys(v) == seq!["name"@, "description"@, "inputSchema"@]
    &&& is_text(at(v, 0), name)
    &&& is_text(at(v, 1), description)
    &&& is_object_schema(at(v, 2), args)
    &&& is_tool_properties(name, at(at(v, 2), 1))
}

/// `v` is the JSON of a resource with these fields, served as JSON.
pub open spec fn is_resource_json(v: JsonValue, uri: Seq<char>, name: Seq<char>, description: Seq<char>) -> bool {
    &&& keys(v) == seq!["uri"@, "name"@, "description"@, "mimeType"@]
    &&& is_text(at(v, 0), uri)
    &&& is_text(at(v, 1), name)
    &&& is_text(at(v, 2), description)
    &&& is_text(at(v, 3), "application/json"@)
}

/// A schema property of the given JSON type, with a description.
fn property(entries: &mut Vec<(String, JsonValue)>, name: &str, kind: &str, description: &str)
    ensures
        final(entries)@.len() == old(entries)@.len() + 1,
        final(entries)@.subrange(0, old(entries)@.len() as int) == old(entries)@,
        final(entries)@.last().0@ == name@,
        keys(final(entries)@.last().1) == seq!["type"@, "description"@],
        is_text(at(final(entries)@.last().1, 0), kind@),
        is_text(at(final(entries)@.last().1, 1), description@),
{
    let mut p: Vec<(String, JsonValue)> = Vec::new();
    put(&mut p, "type", text_value(kind));
    put(&mut p, "description", text_value(description));
    assert(keys(JsonValue::Object(p)) =~= seq!["type"@, "description"@]);
    put(entries, name, JsonValue::Object(p));
}

/// An object schema with the given properties.
fn object_schema(properties: Vec<(String, JsonValue)>) -> (r: JsonValue)
    ensures
        keys(r) == seq!["type"@, "properties"@],
        is_text(at(r, 0), "object"@),
        at(r, 1) == JsonValue::Object(properties),
{
    let mut s: Vec<(String, JsonValue)> = Vec::new();
    put(&mut s, "type", text_value("object"));
    put(&mut s, "properties", JsonValue::Object(properties));
    assert(keys(JsonValue::Object(s)) =~= seq!["type"@, "properties"@]);
    JsonValue::Object(s)
}

/// The three tool names differ.
proof fn tool_names_differ()
    ensures
        TOOL_PUSH@ != TOOL_SCAN_TASKS@,
        TOOL_PUSH@ != TOOL_MERGE@,
        TOOL_SCAN_TASKS@ != TOOL_MERGE@,
{
    reveal_strlit("github_push");
    reveal_strlit("github_scan_tasks");
    reveal_strlit("github_merge");
    assert(TOOL_PUSH@[7] != TOOL_SCAN_TASKS@[7]);
    assert(TOOL_PUSH@[7] != TOOL_MERGE@[7]);
    assert(TOOL_SCAN_TASKS@[7] != TOOL_MERGE@[7]);
}

/// The three tools, in the order `tools/list` gives them.
pub fn tool_descriptors() -> (r: Vec<McpTool>)
    ensures
        r@.len() == 3,
        is_tool(r@[0], TOOL_PUSH@, PUSH_DESCRIPTION@, push_arguments()),
        is_tool(r@[1], TOOL_SCAN_TASKS@, SCAN_TASKS_DESCRIPTION@, scan_tasks_arguments()),
        is_tool(r@[2], TOOL_MERGE@, MERGE_DESCRIPTION@, merge_arguments()),
{
    proof {
        tool_names_differ();
    }
    let mut tools: Vec<McpTool> = Vec::new();

    let mut push: Vec<(String, JsonValue)> = Vec::new();
    property(&mut push, "branch", "string", "Branch to push (defaults to current branch)");
    let ghost p1 = push@;
    property(&mut push, "message", "string", "Optional commit message if changes need to be committed");
    let ghost p2 = push@;
    property(&mut push, "ready_for_review", "boolean", "Mark PR as ready for review after push");
    assert(push@[0] == p2[0] && p2[0] == p1[0] && push@[1] == p2[1]);
    assert(keys(JsonValue::Object(push)) =~= push_arguments());
    tools.push(McpTool {
        name: String::from_str(TOOL_PUSH),
        description: String::from_str(PUSH_DESCRIPTION),
        input_schema: object_schema(push),
    });

    let mut scan: Vec<(String, JsonValue)> = Vec::new();
    property(&mut scan, "project_number", "string", "GitHub Project number (optional, will auto-detect from TODO.md)");
    let ghost s1 = scan@;
    let mut filter: Vec<(String, JsonValue)> = Vec::new();
    put(&mut filter, "type", text_value("string"));
    let mut kinds: Vec<JsonValue> = Vec::new();
    kinds.push(text_value("bug"));
    kinds.push(text_value("feature"));
    kinds.push(text_value("enhancement"));
    kinds.push(text_value("documentation"));
    kinds.push(text_value("refactor"));
    kinds.push(text_value("test"));
    kinds.push(text_value("chore"));
    assert(forall|i: int|
        0 <= i < task_types().len() ==> is_text(#[trigger] kinds@[i], task_types()[i]));
    put(&mut filter, "enum", JsonValue::Array(kinds));
    let ghost f2 = filter@;
    put(&mut filter, "description", text_value("Filter tasks by type"));
    assert(filter@[0] == f2[0] && filter@[1] == f2[1]);
    assert(keys(JsonValue::Object(filter)) =~= seq!["type"@, "enum"@, "description"@]);
    put(&mut scan, "filter_type", JsonValue::Object(filter));
    let ghost s2 = scan@;
    property(&mut scan, "status", "string", "Filter tasks by status (In Progress, To Do, etc.)");
    assert(scan@[0] == s2[0] && s2[0] == s1[0] && scan@[1] == s2[1]);
    assert(keys(JsonValue::Object(scan)) =~= scan_tasks_arguments());
    tools.push(McpTool {
        name: String::from_str(TOOL_SCAN_TASKS),
        description: String::from_str(SCAN_TASKS_DESCRIPTION),
        input_schema: object_schema(scan),
    });

    let mut merge: Vec<(String, JsonValue)> = Vec::new();
    property(&mut merge, "branch", "string", "Branch to merge (defaults to current branch)");
    let ghost m1 = merge@;
    property(&mut merge, "delete_branch", "boolean", "Delete branch after merge (default: true)");
    let ghost m2 = merge@;
    property(&mut merge, "cleanup_work_folder", "boolean", "Clean up work folder after merge (default: ask user)");
    assert(merge@[0] == m2[0] && m2[0] == m1[0] && merge@[1] == m2[1]);
    assert(keys(JsonValue::Object(merge)) =~= merge_arguments());
    tools.push(McpTool {
        name: String::from_str(TOOL_MERGE),
        description: String::from_str(MERGE_DESCRIPTION),
        input_schema: object_schema(merge),
    });
    tools
}

/// The two resources, in the order `resources/list` gives them.
pub fn resource_descriptors() -> (r: Vec<McpResource>)
    ensures
        r@.len() == 2,
        r@[0].uri@ == WORKFLOW_STATUS_URI@,
        r@[0].name@ == "Workflow Status"@,
        r@[0].description matches Some(d) && d@ == "Current GitHub workflow status and active tasks"@,
        r@[0].mime_type matches Some(m) && m@ == "application/json"@,
        r@[1].uri@ == PROJECT_TASKS_URI@,
        r@[1].name@ == "Project Tasks"@,
        r@[1].description matches Some(d) && d@ == "GitHub Project tasks with current status"@,
        r@[1].mime_type matches Some(m) && m@ == "application/json"@,
{
    let mut resources: Vec<McpResource> = Vec::new();
    resources.push(McpResource {
        uri: String::from_str(WORKFLOW_STATUS_URI),
        name: String::from_str("Workflow Status"),
        description: Some(String::from_str("Current GitHub workflow status and active tasks")),
        mime_type: Some(String::from_str("application/json")),
    });
    resources.push(McpResource {
        uri: String::from_str(PROJECT_TASKS_URI),
        name: String::from_str("Project Tasks"),
        description: Some(String::from_str("GitHub Project tasks with current status")),
        mime_type: Some(String::from_str("application/json")),
    });
    resources
}

impl McpTool {
    /// The descriptor as `tools/list` writes it: name, description, schema.
    pub fn to_json(self) -> (r: JsonValue)
        ensures
            keys(r) == seq!["name"@, "description"@, "inputSchema"@],
            at(r, 0) == JsonValue::Str(self.name),
            at(r, 1) == JsonValue::Str(self.description),
            at(r, 2) == self.input_schema,
    {
        let mut t: Vec<(String, JsonValue)> = Vec::new();
        put(&mut t, "name", JsonValue::Str(self.name));
        put(&mut t, "description", JsonValue::Str(self.description));
        put(&mut t, "inputSchema", self.input_schema);
        assert(keys(JsonValue::Object(t)) =~= seq!["name"@, "description"@, "inputSchema"@]);
        JsonValue::Object(t)
    }
}

impl McpResource {
    /// The descriptor as `resources/list` writes it: uri and name, then the
    /// description and the media type where present.
    pub fn to_json(self) -> (r: JsonValue)
        ensures
            at(r, 0) == JsonValue::Str(self.uri),
            at(r, 1) == JsonValue::Str(self.name),
            match (self.description, self.mime_type) {
                (Some(d), Some(m)) => keys(r) == seq!["uri"@, "name"@, "description"@, "mimeType"@]
                    && at(r, 2) == JsonValue::Str(d) && at(r, 3) == JsonValue::Str(m),
                (Some(d), None) => keys(r) == seq!["uri"@, "name"@, "description"@] && at(r, 2) == JsonValue::Str(d),
                (None, Some(m)) => keys(r) == seq!["uri"@, "name"@, "mimeType"@] && at(r, 2) == JsonValue::Str(m),
                (None, None) => keys(r) == seq!["uri"@, "name"@],
            },
    {
        let mut t: Vec<(String, JsonValue)> = Vec::new();
        put(&mut t, "uri", JsonValue::Str(self.uri));
        put(&mut t, "name", JsonValue::Str(self.name));
        let ghost two = t@;
        let ghost desc = self.description;
        let ghost mime = self.mime_type;
        match self.description {
            Some(d) => put(&mut t, "description", JsonValue::Str(d)),
            None => {},
        }
        let ghost three = t@;
        match self.mime_type {
            Some(m) => put(&mut t, "mimeType", JsonValue::Str(m)),
            None => {},
        }
        assert(t@[0] == two[0] && t@[1] == two[1]);
        proof {
            match (desc, mime) {
                (Some(_), Some(_)) => {
                    assert(t@[2] == three[2]);
                    assert(keys(JsonValue::Object(t)) =~= seq!["uri"@, "name"@, "description"@, "mimeType"@]);
                },
                (Some(_), None) => assert(keys(JsonValue::Object(t)) =~= seq!["uri"@, "name"@, "description"@]),
                (None, Some(_)) => assert(keys(JsonValue::Object(t)) =~= seq!["uri"@, "name"@, "mimeType"@]),
                (None, None) => assert(keys(JsonValue::Object(t)) =~= seq!["uri"@, "name"@]),
            }
        }
        JsonValue::Object(t)
    }
}

fn optional_flag(entries: &mut Vec<(String, JsonValue)>, key: &str, flag: Option<bool>)
    ensures
        final(entries)@.len() == old(entries)@.len() + 1,
        final(entries)@.subrange(0, old(entries)@.len() as int) == old(entries)@,
        final(entries)@.last().0@ == key@,
        final(entries)@.last().1 == opt_flag_json(flag),
{
    match flag {
        Some(b) => put(entries, key, JsonValue::Bool(b)),
        None => put(entries, key, JsonValue::Null),
    }
}

/// `v` is the JSON of the capabilities `c`: tools, resources and logging, each
/// an object of its settings, or null when absent.
pub open spec fn is_capabilities_json(v: JsonValue, c: ServerCapabilities) -> bool {
    &&& keys(v) == seq!["tools"@, "resources"@, "logging"@]
    &&& match c.tools {
        Some(t) => keys(at(v, 0)) == seq!["listChanged"@] && at(at(v, 0), 0) == opt_flag_json(t.list_changed),
        None => at(v, 0) == JsonValue::Null,
    }
    &&& match c.resources {
        Some(t) => keys(at(v, 1)) == seq!["subscribe"@, "listChanged"@] && at(at(v, 1), 0) == opt_flag_json(
            t.subscribe,
        ) && at(at(v, 1), 1) == opt_flag_json(t.list_changed),
        None => at(v, 1) == JsonValue::Null,
    }
    &&& match c.logging {
        Some(l) => keys(at(v, 2)) == seq!["level"@] && at(at(v, 2), 0) == opt_text_json(l.level),
        None => at(v, 2) == JsonValue::Null,
    }
}

impl ServerCapabilities {
    /// The capabilities as `initialize` writes them.
    pub fn to_json(self) -> (r: JsonValue)
        ensures
            is_capabilities_json(r, self),
    {
        let ghost c = self;
        let mut out: Vec<(String, JsonValue)> = Vec::new();
        match self.tools {
            Some(t) => {
                let mut o: Vec<(String, JsonValue)> = Vec::new();
                optional_flag(&mut o, "listChanged", t.list_changed);
                assert(keys(JsonValue::Object(o)) =~= seq!["listChanged"@]);
                put(&mut out, "tools", JsonValue::Object(o));
            },
            None => put(&mut out, "tools", JsonValue::Null),
        }
        let ghost one = out@;
        match self.resources {
            Some(t) => {
                let mut o: Vec<(String, JsonValue)> = Vec::new();
                optional_flag(&mut o, "subscribe", t.subscribe);
                optional_flag(&mut o, "listChanged", t.list_changed);
                assert(keys(JsonValue::Object(o)) =~= seq!["subscribe"@, "listChanged"@]);
                put(&mut out, "resources", JsonValue::Object(o));
            },
            None => put(&mut out, "resources", JsonValue::Null),
        }
        let ghost two = out@;
        match self.logging {
            Some(l) => {
                let mut o: Vec<(String, JsonValue)> = Vec::new();
                put(&mut o, "level", crate::json::optional_text(l.level));
                assert(keys(JsonValue::Object(o)) =~= seq!["level"@]);
                put(&mut out, "logging", JsonValue::Object(o));
            },
            None => put(&mut out, "logging", JsonValue::Null),
        }
        assert(out@[0] == one[0] && out@[1] == two[1]);
        assert(keys(JsonValue::Object(out)) =~= seq!["tools"@, "resources"@, "logging"@]);
        JsonValue::Object(out)
    }
}

/// The name and version that `initialize` announces.
pub const SERVER_NAME: &'static str = "github-mcp-server";

pub const SERVER_VERSION: &'static str = "0.1.0";

/// The result of `initialize`: protocol version, the default capabilities
/// (tool and resource lists that may change, no subscriptions, logging at
/// `info`), and the server's name and version.
pub open spec fn is_initialize_result(r: JsonValue) -> bool {
    &&& keys(r) == seq!["protocolVersion"@, "capabilities"@, "serverInfo"@]
    &&& is_text(at(r, 0), MCP_VERSION@)
    &&& keys(at(r, 1)) == seq!["tools"@, "resources"@, "logging"@]
    &&& keys(at(at(r, 1), 0)) == seq!["listChanged"@]
    &&& at(at(at(r, 1), 0), 0) == JsonValue::Bool(true)
    &&& keys(at(at(r, 1), 1)) == seq!["subscribe"@, "listChanged"@]
    &&& at(at(at(r, 1), 1), 0) == JsonValue::Bool(false)
    &&& at(at(at(r, 1), 1), 1) == JsonValue::Bool(true)
    &&& keys(at(at(r, 1), 2)) == seq!["level"@]
    &&& is_text(at(at(at(r, 1), 2), 0), "info"@)
    &&& keys(at(r, 2)) == seq!["name"@, "version"@]
    &&& is_text(at(at(r, 2), 0), SERVER_NAME@)
    &&& is_text(at(at(r, 2), 1), SERVER_VERSION@)
}

pub fn initialize_result() -> (r: JsonValue)
    ensures
        is_initialize_result(r),
{
    let mut r: Vec<(String, JsonValue)> = Vec::new();
    put(&mut r, "protocolVersion", text_value(MCP_VERSION));
    let caps: ServerCapabilities = ServerCapabilities::default();
    put(&mut r, "capabilities", caps.to_json());
    let mut info: Vec<(String, JsonValue)> = Vec::new();
    put(&mut info, "name", text_value(SERVER_NAME));
    put(&mut info, "version", text_value(SERVER_VERSION));
    assert(keys(JsonValue::Object(info)) =~= seq!["name"@, "version"@]);
    let ghost two = r@;
    put(&mut r, "serverInfo", JsonValue::Object(info));
    assert(r@[0] == two[0] && r@[1] == two[1]);
    assert(keys(JsonValue::Object(r)) =~= seq!["protocolVersion"@, "capabilities"@, "serverInfo"@]);
    JsonValue::Object(r)
}

/// The result of `tools/list`: the three tools, in order.
pub open spec fn is_tools_list_result(r: JsonValue) -> bool {
    &&& keys(r) == seq!["tools"@]
    &&& elements(at(r, 0)).len() == 3
    &&& is_tool_json(elements(at(r, 0))[0], TOOL_PUSH@, PUSH_DESCRIPTION@, push_arguments())
    &&& is_tool_json(elements(at(r, 0))[1], TOOL_SCAN_TASKS@, SCAN_TASKS_DESCRIPTION@, scan_tasks_arguments())
    &&& is_tool_json(elements(at(r, 0))[2], TOOL_MERGE@, MERGE_DESCRIPTION@, merge_arguments())
}

pub fn tools_list_result() -> (r: JsonValue)
    ensures
        is_tools_list_result(r),
{
    let mut descriptors = tool_descriptors();
    let merge = descriptors.pop().unwrap();
    let scan = descriptors.pop().unwrap();
    let push = descriptors.pop().unwrap();
    let mut tools: Vec<JsonValue> = Vec::new();
    tools.push(push.to_json());
    tools.push(scan.to_json());
    tools.push(merge.to_json());
    let mut r: Vec<(String, JsonValue)> = Vec::new();
    put(&mut r, "tools", JsonValue::Array(tools));
    assert(keys(JsonValue::Object(r)) =~= seq!["tools"@]);
    JsonValue::Object(r)
}

/// The result of `resources/list`: the two resources, in order.
pub open spec fn is_resources_list_result(r: JsonValue) -> bool {
    &&& keys(r) == seq!["resources"@]
    &&& elements(at(r, 0)).len() == 2
    &&& is_resource_json(
        elements(at(r, 0))[0],
        WORKFLOW_STATUS_URI@,
        "Workflow Status"@,
        "Current GitHub workflow status and active tasks"@,
    )
    &&& is_resource_json(
        elements(at(r, 0))[1],
        PROJECT_TASKS_URI@,
        "Project Tasks"@,
        "GitHub Project tasks with current status"@,
    )
}

pub fn resources_list_result() -> (r: JsonValue)
    ensures
        is_resources_list_result(r),
{
    let mut descriptors = resource_descriptors();
    let tasks = descriptors.pop().unwrap();
    let status = descriptors.pop().unwrap();
    let mut resources: Vec<JsonValue> = Vec::new();
    resources.push(status.to_json());
    resources.push(tasks.to_json());
    let mut r: Vec<(String, JsonValue)> = Vec::new();
    put(&mut r, "resources", JsonValue::Array(resources));
    assert(keys(JsonValue::Object(r)) =~= seq!["resources"@]);
    JsonValue::Object(r)
}

/// A successful reply.
fn reply(id: Option<JsonValue>, result: JsonValue) -> (r: Route)
    ensures
        r matches Route::Reply(resp) && resp.id == id && resp.is_well_formed() && resp.result == Some(result),
{
    Route::Reply(McpResponse::success(id, result))
}

/// No two method names are the same.
proof fn method_names_differ()
    ensures
        INITIALIZE@ != TOOLS_LIST@,
        INITIALIZE@ != TOOLS_CALL@,
        INITIALIZE@ != RESOURCES_LIST@,
        INITIALIZE@ != RESOURCES_READ@,
        INITIALIZE@ != GITHUB_PUSH@,
        INITIALIZE@ != GITHUB_SCAN_TASKS@,
        INITIALIZE@ != GITHUB_MERGE@,
        TOOLS_LIST@ != TOOLS_CALL@,
        TOOLS_LIST@ != RESOURCES_LIST@,
        TOOLS_LIST@ != RESOURCES_READ@,
        TOOLS_LIST@ != GITHUB_PUSH@,
        TOOLS_LIST@ != GITHUB_SCAN_TASKS@,
        TOOLS_LIST@ != GITHUB_MERGE@,
        TOOLS_CALL@ != RESOURCES_LIST@,
        TOOLS_CALL@ != RESOURCES_READ@,
        TOOLS_CALL@ != GITHUB_PUSH@,
        TOOLS_CALL@ != GITHUB_SCAN_TASKS@,
        TOOLS_CALL@ != GITHUB_MERGE@,
        RESOURCES_LIST@ != RESOURCES_READ@,
        RESOURCES_LIST@ != GITHUB_PUSH@,
        RESOURCES_LIST@ != GITHUB_SCAN_TASKS@,
        RESOURCES_LIST@ != GITHUB_MERGE@,
        RESOURCES_READ@ != GITHUB_PUSH@,
        RESOURCES_READ@ != GITHUB_SCAN_TASKS@,
        RESOURCES_READ@ != GITHUB_MERGE@,
        GITHUB_PUSH@ != GITHUB_SCAN_TASKS@,
        GITHUB_PUSH@ != GITHUB_MERGE@,
        GITHUB_SCAN_TASKS@ != GITHUB_MERGE@,
{
    reveal_strlit("initialize");
    reveal_strlit("tools/list");
    reveal_strlit("tools/call");
    reveal_strlit("resources/list");
    reveal_strlit("resources/read");
    reveal_strlit("github/push");
    reveal_strlit("github/scan-tasks");
    reveal_strlit("github/merge");
    assert(INITIALIZE@[0] != TOOLS_LIST@[0]);
    assert(INITIALIZE@[0] != TOOLS_CALL@[0]);
    assert(TOOLS_LIST@[6] != TOOLS_CALL@[6]);
    assert(RESOURCES_LIST@[10] != RESOURCES_READ@[10]);
    assert(GITHUB_PUSH@[7] != GITHUB_SCAN_TASKS@[7]);
    assert(GITHUB_PUSH@[7] != GITHUB_MERGE@[7]);
}

/// Where `request` goes: `handle_request`'s whole contract. The correlation
/// id is carried along; replies are well formed; an unknown method gets
/// METHOD_NOT_FOUND; each known method is routed as stated.
pub open spec fn request_route(request: McpRequest, r: Route) -> bool {
    &&& r.id() == request.id
    &&& (r matches Route::Reply(resp) ==> resp.is_well_formed())
    &&& !is_known_method(request.method@) ==> is_error_reply(
        r,
        request.id,
        METHOD_NOT_FOUND,
        "Method not found: "@ + request.method@,
    )
    &&& request.method@ == INITIALIZE@ ==> (r matches Route::Reply(resp) && resp.result matches Some(v)
        && is_initialize_result(v))
    &&& request.method@ == TOOLS_LIST@ ==> (r matches Route::Reply(resp) && resp.result matches Some(v)
        && is_tools_list_result(v))
    &&& request.method@ == RESOURCES_LIST@ ==> (r matches Route::Reply(resp) && resp.result matches Some(v)
        && is_resources_list_result(v))
    &&& request.method@ == TOOLS_CALL@ ==> tools_call_route(request.id, request.params, r)
    &&& request.method@ == RESOURCES_READ@ ==> resources_read_route(request.id, request.params, r)
    &&& request.method@ == GITHUB_PUSH@ ==> (r matches Route::Command {
        command: GitHubCommand::Push { branch, message, ready_for_review },
        ..
    } && opt_view(branch) == text_member(request.params, "branch"@)
        && opt_view(message) == text_member(request.params, "message"@)
        && ready_for_review == flag_member(request.params, "ready_for_review"@))
    &&& request.method@ == GITHUB_SCAN_TASKS@ ==> (r matches Route::Command {
        command: GitHubCommand::ScanTasks { project_number, filter_type, status },
        ..
    } && opt_view(project_number) == text_member(request.params, "project_number"@)
        && opt_view(filter_type) == text_member(request.params, "filter_type"@)
        && opt_view(status) == text_member(request.params, "status"@))
    &&& request.method@ == GITHUB_MERGE@ ==> (r matches Route::Command {
        command: GitHubCommand::Merge { branch, delete_branch, cleanup_work_folder },
        ..
    } && opt_view(branch) == text_member(request.params, "branch"@)
        && delete_branch == flag_member(request.params, "delete_branch"@)
        && cleanup_work_folder == flag_member(request.params, "cleanup_work_folder"@))
}

/// Routes a request by its method. Requests answered at once give a reply;
/// workflow commands and resource reads are handed on. The correlation id is
/// carried along untouched.
pub fn handle_request(request: McpRequest) -> (r: Route)
    ensures
        request_route(request, r),
{
    proof {
        method_names_differ();
    }
    let McpRequest { jsonrpc: _, id, method, params } = request;
    let m = method.as_str();
    if str_equal(m, INITIALIZE) {
        reply(id, initialize_result())
    } else if str_equal(m, TOOLS_LIST) {
        reply(id, tools_list_result())
    } else if str_equal(m, TOOLS_CALL) {
        handle_tools_call(id, &params)
    } else if str_equal(m, RESOURCES_LIST) {
        reply(id, resources_list_result())
    } else if str_equal(m, RESOURCES_READ) {
        handle_resources_read(id, &params)
    } else if str_equal(m, GITHUB_PUSH) {
        let command = GitHubCommand::Push {
            branch: text_param(&params, "branch"),
            message: text_param(&params, "message"),
            ready_for_review: flag_param(&params, "ready_for_review"),
        };
        Route::Command { id, command }
    } else if str_equal(m, GITHUB_SCAN_TASKS) {
        let command = GitHubCommand::ScanTasks {
            project_number: text_param(&params, "project_number"),
            filter_type: text_param(&params, "filter_type"),
            status: text_param(&params, "status"),
        };
        Route::Command { id, command }
    } else if str_equal(m, GITHUB_MERGE) {
        let command = GitHubCommand::Merge {
            branch: text_param(&params, "branch"),
            delete_branch: flag_param(&params, "delete_branch"),
            cleanup_work_folder: flag_param(&params, "cleanup_work_folder"),
        };
        Route::Command { id, command }
    } else {
        error_reply(id, METHOD_NOT_FOUND, message_with("Method not found: ", m))
    }
}

/// `r` is the error response of the workflow error `e`: its code, message
/// and structured context.
pub open spec fn is_workflow_error_response(r: McpResponse, e: WorkflowError) -> bool {
    &&& r.result is None
    &&& r.error matches Some(err) && err.code == error_code(e) && err.message@ == error_message(e) && is_error_data(
        err.data,
        e,
    )
}

/// `v` is the result of a resource read: one content, under the resource's
/// URI, typed as JSON, whose text is `text`.
pub open spec fn is_resource_contents(v: JsonValue, resource: ResourceKind, text: String) -> bool {
    &&& keys(v) == seq!["contents"@]
    &&& elements(at(v, 0)).len() == 1
    &&& keys(elements(at(v, 0))[0]) == seq!["uri"@, "mimeType"@, "text"@]
    &&& is_text(at(elements(at(v, 0))[0], 0), uri_of(resource))
    &&& is_text(at(elements(at(v, 0))[0], 1), "application/json"@)
    &&& at(elements(at(v, 0))[0], 2) == JsonValue::Str(text)
}

/// The response to a workflow command: its outcome as the result, or its
/// error with the error's code.
pub fn command_response(id: Option<JsonValue>, outcome: Result<WorkflowOutcome, WorkflowError>) -> (r: McpResponse)
    ensures
        r.id == id,
        r.is_well_formed(),
        match outcome {
            Ok(o) => r.result matches Some(v) && reports(o, v),
            Err(e) => is_workflow_error_response(r, e),
        },
{
    match outcome {
        Ok(o) => McpResponse::success(id, o.to_json()),
        Err(e) => {
            let (code, message, data) = e.into_parts();
            McpResponse::error(id, code, message, data)
        },
    }
}

/// The URI of a resource.
pub open spec fn uri_of(resource: ResourceKind) -> Seq<char> {
    match resource {
        ResourceKind::WorkflowStatus => WORKFLOW_STATUS_URI@,
        ResourceKind::ProjectTasks => PROJECT_TASKS_URI@,
    }
}

/// The URI of a resource.
pub fn resource_uri(resource: &ResourceKind) -> (r: &'static str)
    ensures
        r@ == uri_of(*resource),
{
    match resource {
        ResourceKind::WorkflowStatus => WORKFLOW_STATUS_URI,
        ResourceKind::ProjectTasks => PROJECT_TASKS_URI,
    }
}

/// The response to a resource read: the content, as JSON text, under the
/// resource's URI; or the error of the read.
pub fn resource_response(id: Option<JsonValue>, resource: ResourceKind, content: Result<String, WorkflowError>) -> (r:
    McpResponse)
    ensures
        r.id == id,
        r.is_well_formed(),
        match content {
            Ok(text) => r.result matches Some(v) && is_resource_contents(v, resource, text),
            Err(e) => is_workflow_error_response(r, e),
        },
{
    match content {
        Ok(text) => {
            let mut c: Vec<(String, JsonValue)> = Vec::new();
            put(&mut c, "uri", text_value(resource_uri(&resource)));
            put(&mut c, "mimeType", text_value("application/json"));
            put(&mut c, "text", JsonValue::Str(text));
            assert(keys(JsonValue::Object(c)) =~= seq!["uri"@, "mimeType"@, "text"@]);
            let mut contents: Vec<JsonValue> = Vec::new();
            contents.push(JsonValue::Object(c));
            let mut r: Vec<(String, JsonValue)> = Vec::new();
            put(&mut r, "contents", JsonValue::Array(contents));
            assert(keys(JsonValue::Object(r)) =~= seq!["contents"@]);
            McpResponse::success(id, JsonValue::Object(r))
        },
        Err(e) => {
            let (code, message, data) = e.into_parts();
            McpResponse::error(id, code, message, data)
        },
    }
}

/// The answer to a message that is not a request: a parse error, addressed
/// with a null correlation id since none can be read.
pub fn parse_error_response() -> (r: McpResponse)
    ensures
        is_error_response(r, None, PARSE_ERROR, "Invalid JSON"@),
{
    McpResponse::error(None, PARSE_ERROR, String::from_str("Invalid JSON"), None)
}

/// A frame received on the streaming transport.
#[derive(Debug)]
pub enum Frame {
    /// A text frame: the request it holds, or `None` when it does not parse.
    Text(Option<McpRequest>),
    /// The peer closed the stream.
    Close,
    /// A binary, ping or pong frame.
    Other,
    /// Receiving failed.
    ReceiveError,
}

/// What the streaming transport does with a frame.
#[derive(Debug)]
pub enum StreamStep {
    /// Route the request and send its one response.
    Dispatch(Route),
    /// Send this response.
    Send(McpResponse),
    /// Skip the frame.
    Ignore,
    /// End the stream.
    Stop,
}

/// Decides on one frame of the stream. Each text frame is handled on its
/// own, with no state carried between frames: a request is routed, anything
/// unparsable gets a parse error with a null id, a close or a receive error
/// ends the stream.
pub fn handle_websocket_frame(frame: Frame) -> (r: StreamStep)
    ensures
        match frame {
            Frame::Text(Some(request)) => r matches StreamStep::Dispatch(route) && request_route(request, route),
            Frame::Text(None) => r matches StreamStep::Send(resp) && is_error_response(
                resp,
                None,
                PARSE_ERROR,
                "Invalid JSON"@,
            ),
            Frame::Close | Frame::ReceiveError => r is Stop,
            Frame::Other => r is Ignore,
        },
{
    match frame {
        Frame::Text(Some(request)) => StreamStep::Dispatch(handle_request(request)),
        Frame::Text(None) => StreamStep::Send(parse_error_response()),
        Frame::Close | Frame::ReceiveError => StreamStep::Stop,
        Frame::Other => StreamStep::Ignore,
    }
}

} // verus!
