//! A JSON-RPC style tool server for git and GitHub workflows: protocol
//! dispatch, a workflow state machine, a per-client rate limiter and input
//! validation, each with its contract.

pub mod auth;
pub mod config;
pub mod github;
pub mod json;
pub mod mcp;
pub mod rate_limit;
pub mod security;
pub mod text;
