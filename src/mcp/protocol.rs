//! Protocol messages: requests, responses, errors, tool and resource
//! descriptors, and the workflow commands that tools stand for.

use vstd::prelude::*;
use crate::json::JsonValue;

verus! {

/// The protocol version this server speaks.
pub const MCP_VERSION: &'static str = "2024-11-05";

/// The JSON-RPC version marker carried by every message.
pub const JSONRPC_VERSION: &'static str = "2.0";

/// An inbound request. The correlation id is never read, only echoed.
#[derive(Debug)]
pub struct McpRequest {
    pub jsonrpc: String,
    pub id: Option<JsonValue>,
    pub method: String,
    pub params: Option<JsonValue>,
}

/// An outbound response: exactly one of `result` and `error` is present.
#[derive(Debug)]
pub struct McpResponse {
    pub jsonrpc: String,
    pub id: Option<JsonValue>,
    pub result: Option<JsonValue>,
    pub error: Option<McpError>,
}

/// A protocol error: a code of the fixed registry, a message and optional data.
#[derive(Debug)]
pub struct McpError {
    pub code: i32,
    pub message: String,
    pub data: Option<JsonValue>,
}

/// A tool that `tools/list` announces.
#[derive(Debug)]
pub struct McpTool {
    pub name: String,
    pub description: String,
    pub input_schema: JsonValue,
}

/// A resource that `resources/list` announces.
#[derive(Debug)]
pub struct McpResource {
    pub uri: String,
    pub name: String,
    pub description: Option<String>,
    pub mime_type: Option<String>,
}

/// The workflow commands. A field left out is resolved from the working tree
/// or the environment when the command runs.
#[derive(Debug)]
pub enum GitHubCommand {
    Push { branch: Option<String>, message: Option<String>, ready_for_review: Option<bool> },
    ScanTasks { project_number: Option<String>, filter_type: Option<String>, status: Option<String> },
    Merge { branch: Option<String>, delete_branch: Option<bool>, cleanup_work_folder: Option<bool> },
}

impl McpResponse {
    /// Exactly one of `result` and `error` is present.
    pub open spec fn is_well_formed(&self) -> bool {
        self.result.is_some() != self.error.is_some()
    }

    /// The error code, if this is an error response.
    pub open spec fn error_code(&self) -> Option<i32> {
        match self.error {
            Some(e) => Some(e.code),
            None => None,
        }
    }

    pub fn success(id: Option<JsonValue>, result: JsonValue) -> (r: Self)
        ensures
            r.id == id,
            r.result == Some(result),
            r.error.is_none(),
            r.jsonrpc@ == JSONRPC_VERSION@,
            r.is_well_formed(),
    {
        McpResponse { jsonrpc: String::from_str(JSONRPC_VERSION), id, result: Some(result), error: None }
    }

    pub fn error(id: Option<JsonValue>, code: i32, message: String, data: Option<JsonValue>) -> (r: Self)
        ensures
            r.id == id,
            r.result.is_none(),
            r.error == Some(McpError { code, message, data }),
            r.jsonrpc@ == JSONRPC_VERSION@,
            r.is_well_formed(),
    {
        McpResponse {
            jsonrpc: String::from_str(JSONRPC_VERSION),
            id,
            result: None,
            error: Some(McpError { code, message, data }),
        }
    }
}

/// What the server announces that it can do.
#[derive(Debug)]
pub struct ServerCapabilities {
    pub tools: Option<ToolsCapability>,
    pub resources: Option<ResourcesCapability>,
    pub logging: Option<LoggingCapability>,
}

#[derive(Debug)]
pub struct ToolsCapability {
    pub list_changed: Option<bool>,
}

#[derive(Debug)]
pub struct ResourcesCapability {
    pub subscribe: Option<bool>,
    pub list_changed: Option<bool>,
}

#[derive(Debug)]
pub struct LoggingCapability {
    pub level: Option<String>,
}

impl Default for ServerCapabilities {
    /// Tools and resources whose lists may change, no subscriptions, and
    /// logging at level `info`.
    fn default() -> (r: Self)
        ensures
            r.tools == Some(ToolsCapability { list_changed: Some(true) }),
            r.resources == Some(ResourcesCapability { subscribe: Some(false), list_changed: Some(true) }),
            r.logging matches Some(l) && l.level matches Some(level) && level@ == "info"@,
    {
        ServerCapabilities {
            tools: Some(ToolsCapability { list_changed: Some(true) }),
            resources: Some(ResourcesCapability { subscribe: Some(false), list_changed: Some(true) }),
            logging: Some(LoggingCapability { level: Some(String::from_str("info")) }),
        }
    }
}

} // verus!
