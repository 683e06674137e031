//! Git and GitHub workflows: the data the GitHub service returns, the parsing
//! of git's output, and the workflow state machine.

pub mod api;
pub mod report;
pub mod git;
pub mod project;
pub mod workflows;
