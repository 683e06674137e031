use github_mcp_server::github::workflows::WorkflowError;
use github_mcp_server::json::JsonValue;
use github_mcp_server::mcp::error_codes::{AUTHENTICATION_ERROR, INVALID_PARAMS, METHOD_NOT_FOUND, PARSE_ERROR};
use github_mcp_server::mcp::handlers::{handle_request, parse_error_response, resource_response, ResourceKind, Route};
use github_mcp_server::mcp::protocol::{GitHubCommand, McpRequest, McpResponse, ServerCapabilities};

fn obj(entries: Vec<(&str, JsonValue)>) -> JsonValue {
    JsonValue::Object(entries.into_iter().map(|(k, v)| (k.to_string(), v)).collect())
}

fn s(v: &str) -> JsonValue {
    JsonValue::Str(v.to_string())
}

fn request(id: Option<JsonValue>, method: &str, params: Option<JsonValue>) -> McpRequest {
    McpRequest { jsonrpc: "2.0".to_string(), id, method: method.to_string(), params }
}

fn reply(r: Route) -> McpResponse {
    match r {
        Route::Reply(resp) => resp,
        _ => panic!("expected an immediate reply"),
    }
}

fn well_formed(r: &McpResponse) -> bool {
    r.result.is_some() != r.error.is_some()
}

#[test]
fn unknown_method_is_method_not_found_with_id_kept() {
    for params in [None, Some(obj(vec![("x", JsonValue::Number(1))])), Some(JsonValue::Null)] {
        let resp = reply(handle_request(request(Some(s("abc")), "no/such", params)));
        assert!(well_formed(&resp));
        assert!(matches!(&resp.id, Some(JsonValue::Str(t)) if t == "abc"));
        let e = resp.error.unwrap();
        assert_eq!(e.code, METHOD_NOT_FOUND);
        assert_eq!(e.code, -32601);
        assert_eq!(e.message, "Method not found: no/such");
        assert!(e.data.is_none());
    }
}

#[test]
fn notifications_initialized_is_not_routed() {
    let resp = reply(handle_request(request(None, "notifications/initialized", None)));
    assert!(resp.id.is_none());
    assert_eq!(resp.error.unwrap().code, METHOD_NOT_FOUND);
}

#[test]
fn initialize_reports_protocol_version_and_echoes_null_id() {
    let resp = reply(handle_request(request(None, "initialize", None)));
    assert!(resp.id.is_none());
    assert!(well_formed(&resp));
    assert_eq!(resp.jsonrpc, "2.0");
    let result = resp.result.unwrap();
    assert!(matches!(result.get("protocolVersion"), Some(JsonValue::Str(v)) if v == "2024-11-05"));
    let info = result.get("serverInfo").unwrap();
    assert!(matches!(info.get("name"), Some(JsonValue::Str(n)) if n == "github-mcp-server"));
    let caps = result.get("capabilities").unwrap();
    assert!(matches!(caps.get("tools").and_then(|t| t.get("listChanged")), Some(JsonValue::Bool(true))));
}

#[test]
fn tools_list_names_three_tools() {
    let resp = reply(handle_request(request(Some(JsonValue::Number(2)), "tools/list", None)));
    assert!(matches!(resp.id, Some(JsonValue::Number(2))));
    let result = resp.result.unwrap();
    match result.get("tools") {
        Some(JsonValue::Array(tools)) => {
            let names: Vec<String> = tools.iter().map(|t| t.get("name").unwrap().as_str().unwrap().clone()).collect();
            assert_eq!(names, vec!["github_push", "github_scan_tasks", "github_merge"]);
            assert!(matches!(tools[1].get("description"), Some(JsonValue::Str(d)) if d == "Scan GitHub Projects for tasks and present organized by type/priority"));
            let props = tools[2].get("inputSchema").unwrap().get("properties").unwrap();
            assert!(props.get("delete_branch").is_some() && props.get("cleanup_work_folder").is_some());
            assert!(tools[0].get("inputSchema").unwrap().get("properties").unwrap().get("ready_for_review").is_some());
        },
        _ => panic!("tools array expected"),
    }
}

#[test]
fn resources_list_names_two_resources() {
    let resp = reply(handle_request(request(Some(JsonValue::Number(4)), "resources/list", None)));
    match resp.result.unwrap().get("resources") {
        Some(JsonValue::Array(rs)) => {
            assert_eq!(rs.len(), 2);
            assert!(matches!(rs[0].get("uri"), Some(JsonValue::Str(u)) if u == "github://workflow/status"));
            assert!(matches!(rs[1].get("uri"), Some(JsonValue::Str(u)) if u == "github://projects/tasks"));
        },
        _ => panic!("resources array expected"),
    }
}

#[test]
fn tools_call_maps_arguments_field_by_field() {
    let params = obj(vec![
        ("name", s("github_push")),
        ("arguments", obj(vec![("branch", s("feature/x")), ("message", s("fix bug")), ("ready_for_review", JsonValue::Bool(true))])),
    ]);
    match handle_request(request(Some(JsonValue::Number(5)), "tools/call", Some(params))) {
        Route::Command { id, command: GitHubCommand::Push { branch, message, ready_for_review } } => {
            assert!(matches!(id, Some(JsonValue::Number(5))));
            assert_eq!(branch.as_deref(), Some("feature/x"));
            assert_eq!(message.as_deref(), Some("fix bug"));
            assert_eq!(ready_for_review, Some(true));
        },
        _ => panic!("expected a push command"),
    }
}

#[test]
fn tools_call_without_arguments_leaves_fields_absent() {
    let params = obj(vec![("name", s("github_merge"))]);
    match handle_request(request(None, "tools/call", Some(params))) {
        Route::Command { command: GitHubCommand::Merge { branch, delete_branch, cleanup_work_folder }, .. } => {
            assert!(branch.is_none() && delete_branch.is_none() && cleanup_work_folder.is_none());
        },
        _ => panic!("expected a merge command"),
    }
}

#[test]
fn tools_call_unknown_tool_is_method_not_found() {
    let params = obj(vec![("name", s("github_rebase"))]);
    let resp = reply(handle_request(request(Some(JsonValue::Number(6)), "tools/call", Some(params))));
    let e = resp.error.unwrap();
    assert_eq!(e.code, METHOD_NOT_FOUND);
    assert_eq!(e.message, "Unknown tool: github_rebase");
}

#[test]
fn tools_call_malformed_input_is_invalid_params() {
    let missing = reply(handle_request(request(None, "tools/call", None)));
    assert_eq!(missing.error.unwrap().code, INVALID_PARAMS);
    let no_name = reply(handle_request(request(None, "tools/call", Some(obj(vec![])))));
    assert_eq!(no_name.error.unwrap().code, INVALID_PARAMS);
    let bad_arg = obj(vec![("name", s("github_scan_tasks")), ("arguments", obj(vec![("project_number", JsonValue::Number(7))]))]);
    let resp = reply(handle_request(request(Some(s("q")), "tools/call", Some(bad_arg))));
    assert!(matches!(&resp.id, Some(JsonValue::Str(t)) if t == "q"));
    assert_eq!(resp.error.unwrap().code, INVALID_PARAMS);
    let bad_args = obj(vec![("name", s("github_push")), ("arguments", s("oops"))]);
    assert_eq!(reply(handle_request(request(None, "tools/call", Some(bad_args)))).error.unwrap().code, INVALID_PARAMS);
}

#[test]
fn direct_aliases_read_parameters_leniently() {
    let params = obj(vec![("branch", JsonValue::Number(3)), ("delete_branch", JsonValue::Bool(false))]);
    match handle_request(request(Some(JsonValue::Number(9)), "github/merge", Some(params))) {
        Route::Command { command: GitHubCommand::Merge { branch, delete_branch, .. }, .. } => {
            assert!(branch.is_none());
            assert_eq!(delete_branch, Some(false));
        },
        _ => panic!("expected a merge command"),
    }
    match handle_request(request(None, "github/scan-tasks", None)) {
        Route::Command { command: GitHubCommand::ScanTasks { project_number, .. }, .. } => assert!(project_number.is_none()),
        _ => panic!("expected a scan command"),
    }
    assert!(matches!(handle_request(request(None, "github/push", None)), Route::Command { command: GitHubCommand::Push { .. }, .. }));
}

#[test]
fn resources_read_routes_known_uris() {
    let params = obj(vec![("uri", s("github://workflow/status"))]);
    assert!(matches!(
        handle_request(request(Some(JsonValue::Number(1)), "resources/read", Some(params))),
        Route::Resource { resource: ResourceKind::WorkflowStatus, id: Some(JsonValue::Number(1)) }
    ));
    let params = obj(vec![("uri", s("github://projects/tasks"))]);
    assert!(matches!(handle_request(request(None, "resources/read", Some(params))), Route::Resource { resource: ResourceKind::ProjectTasks, .. }));
    let params = obj(vec![("uri", s("github://nothing"))]);
    assert_eq!(reply(handle_request(request(None, "resources/read", Some(params)))).error.unwrap().code, METHOD_NOT_FOUND);
    assert_eq!(reply(handle_request(request(None, "resources/read", None))).error.unwrap().code, INVALID_PARAMS);
}

#[test]
fn resource_response_wraps_content_under_uri() {
    let resp = resource_response(Some(JsonValue::Number(11)), ResourceKind::ProjectTasks, Ok("{}".to_string()));
    assert!(matches!(resp.id, Some(JsonValue::Number(11))));
    match resp.result.unwrap().get("contents") {
        Some(JsonValue::Array(c)) => {
            assert!(matches!(c[0].get("uri"), Some(JsonValue::Str(u)) if u == "github://projects/tasks"));
            assert!(matches!(c[0].get("mimeType"), Some(JsonValue::Str(m)) if m == "application/json"));
            assert!(matches!(c[0].get("text"), Some(JsonValue::Str(t)) if t == "{}"));
        },
        _ => panic!("contents expected"),
    }
}

#[test]
fn parse_error_has_null_id() {
    let resp = parse_error_response();
    assert!(resp.id.is_none());
    assert!(well_formed(&resp));
    assert_eq!(resp.jsonrpc, "2.0");
    let e = resp.error.unwrap();
    assert_eq!(e.code, PARSE_ERROR);
    assert_eq!(e.message, "Invalid JSON");
    assert!(e.data.is_none());
}

#[test]
fn success_and_error_constructors_are_exclusive() {
    let ok = McpResponse::success(Some(JsonValue::Number(1)), JsonValue::Null);
    assert!(ok.result.is_some() && ok.error.is_none());
    let err = McpResponse::error(None, -32603, "boom".to_string(), None);
    assert!(err.result.is_none() && err.error.is_some());
}

#[test]
fn default_capabilities() {
    let caps = ServerCapabilities::default();
    assert_eq!(caps.tools.unwrap().list_changed, Some(true));
    let r = caps.resources.unwrap();
    assert_eq!(r.subscribe, Some(false));
    assert_eq!(caps.logging.unwrap().level.as_deref(), Some("info"));
}

#[test]
fn resource_read_error_keeps_id_and_code() {
    let err = WorkflowError::Authentication { detail: "No GitHub token available".to_string() };
    let resp = resource_response(Some(s("r1")), ResourceKind::WorkflowStatus, Err(err));
    assert!(matches!(&resp.id, Some(JsonValue::Str(t)) if t == "r1"));
    assert!(resp.result.is_none());
    let e = resp.error.unwrap();
    assert_eq!(e.code, AUTHENTICATION_ERROR);
    assert_eq!(e.message, "Authentication error: No GitHub token available");
}
