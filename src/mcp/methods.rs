//! The method names that the dispatcher knows.

use vstd::prelude::*;

verus! {

pub const INITIALIZE: &'static str = "initialize";

pub const TOOLS_LIST: &'static str = "tools/list";

pub const TOOLS_CALL: &'static str = "tools/call";

pub const RESOURCES_LIST: &'static str = "resources/list";

pub const RESOURCES_READ: &'static str = "resources/read";

pub const NOTIFICATIONS_INITIALIZED: &'static str = "notifications/initialized";

pub const GITHUB_PUSH: &'static str = "github/push";

pub const GITHUB_SCAN_TASKS: &'static str = "github/scan-tasks";

pub const GITHUB_MERGE: &'static str = "github/merge";

/// Whether the dispatcher routes `m` anywhere.
pub open spec fn is_known_method(m: Seq<char>) -> bool {
    ||| m == INITIALIZE@
    ||| m == TOOLS_LIST@
    ||| m == TOOLS_CALL@
    ||| m == RESOURCES_LIST@
    ||| m == RESOURCES_READ@
    ||| m == GITHUB_PUSH@
    ||| m == GITHUB_SCAN_TASKS@
    ||| m == GITHUB_MERGE@
}

} // verus!
