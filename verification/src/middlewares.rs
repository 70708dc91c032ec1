//! The access guard: the transition table mapping each workflow phase to the
//! set of permitted request paths, and the validator every inbound operation
//! passes before any handler logic runs.

use crate::app_data::{app_status_str, AppStatus};
use crate::router::{route_path_str, RoutePath};
use vstd::prelude::*;
use vstd::string::StringExecFns;

verus! {

/// The transition table: true iff `path` is permitted while the workflow
/// holds `status`. Reading the status and the health probe are permitted in
/// every phase; every other operation is permitted exactly in the phases
/// listed here.
pub open spec fn allowed_route(status: AppStatus, path: RoutePath) -> bool {
    match status {
        AppStatus::NotInitialized => path == RoutePath::Init || path == RoutePath::Status
            || path == RoutePath::Root,
        AppStatus::Initialized => path == RoutePath::ContextDataset || path == RoutePath::Status
            || path == RoutePath::Root || path == RoutePath::Reset,
        AppStatus::ContextDataSetLoaded => path == RoutePath::PeriodDataset || path
            == RoutePath::Status || path == RoutePath::Root,
        AppStatus::PeriodDataSetLoaded => path == RoutePath::Extract || path == RoutePath::Status
            || path == RoutePath::Root || path == RoutePath::Reset,
        AppStatus::Extracting => path == RoutePath::Status || path == RoutePath::ManualChecks
            || path == RoutePath::Root,
        AppStatus::ExtractError => path == RoutePath::Status || path == RoutePath::ManualChecks
            || path == RoutePath::Root,
        AppStatus::Extracted => path == RoutePath::Run || path == RoutePath::Status || path
            == RoutePath::ManualChecks || path == RoutePath::Root || path == RoutePath::Reset,
        AppStatus::Running => path == RoutePath::Status || path == RoutePath::ManualChecks || path
            == RoutePath::Root,
        AppStatus::RunError => path == RoutePath::Status || path == RoutePath::ManualChecks || path
            == RoutePath::Root,
        AppStatus::Finished => path == RoutePath::Reset || path == RoutePath::Status || path
            == RoutePath::ManualChecks || path == RoutePath::Root,
    }
}

/// Reading the status and the health probe are allowed in every phase.
pub proof fn lemma_status_and_health_always_allowed(status: AppStatus)
    ensures
        allowed_route(status, RoutePath::Status),
        allowed_route(status, RoutePath::Root),
{
}

/// The transition table in executable form.
pub fn route_allowed(status: &AppStatus, path: &RoutePath) -> (r: bool)
    ensures
        r == allowed_route(*status, *path),
{
    match status {
        AppStatus::NotInitialized => *path == RoutePath::Init || *path == RoutePath::Status
            || *path == RoutePath::Root,
        AppStatus::Initialized => *path == RoutePath::ContextDataset || *path == RoutePath::Status
            || *path == RoutePath::Root || *path == RoutePath::Reset,
        AppStatus::ContextDataSetLoaded => *path == RoutePath::PeriodDataset || *path
            == RoutePath::Status || *path == RoutePath::Root,
        AppStatus::PeriodDataSetLoaded => *path == RoutePath::Extract || *path == RoutePath::Status
            || *path == RoutePath::Root || *path == RoutePath::Reset,
        AppStatus::Extracting => *path == RoutePath::Status || *path == RoutePath::ManualChecks
            || *path == RoutePath::Root,
        AppStatus::ExtractError => *path == RoutePath::Status || *path == RoutePath::ManualChecks
            || *path == RoutePath::Root,
        AppStatus::Extracted => *path == RoutePath::Run || *path == RoutePath::Status || *path
            == RoutePath::ManualChecks || *path == RoutePath::Root || *path == RoutePath::Reset,
        AppStatus::Running => *path == RoutePath::Status || *path == RoutePath::ManualChecks
            || *path == RoutePath::Root,
        AppStatus::RunError => *path == RoutePath::Status || *path == RoutePath::ManualChecks
            || *path == RoutePath::Root,
        AppStatus::Finished => *path == RoutePath::Reset || *path == RoutePath::Status || *path
            == RoutePath::ManualChecks || *path == RoutePath::Root,
    }
}

/// Validate one inbound operation against the current phase: the empty string
/// when the path is permitted, and otherwise a message naming the path and
/// the phase that refused it. No state is read or written beyond the two
/// arguments.
pub fn validate_uri_with_status(path: &RoutePath, status: &AppStatus) -> (r: String)
    ensures
        r@.len() == 0 <==> allowed_route(*status, *path),
        !allowed_route(*status, *path) ==> r@ == "Path "@ + route_path_str(*path)
            + " not allowed for status "@ + app_status_str(*status),
{
    if route_allowed(status, path) {
        String::new()
    } else {
        let mut msg = String::from_str("Path ");
        msg.append(path.as_ref());
        msg.append(" not allowed for status ");
        msg.append(status.as_ref());
        proof {
            reveal_strlit("Path ");
            assert(msg@.len() >= "Path "@.len());
        }
        msg
    }
}

} // verus!
