//! The request paths the service serves, and their textual forms.

use crate::strings::str_eq;
use vstd::prelude::*;

verus! {

/// One request path of the service. Each externally exposed operation is
/// reached under exactly one of these paths.
#[derive(Debug, Clone, Copy, PartialEq, Eq, Structural)]
pub enum RoutePath {
    Root,
    Status,
    ManualChecks,
    Init,
    ContextDataset,
    PeriodDataset,
    Extract,
    Run,
    Reset,
}

/// The textual form of a request path.
pub open spec fn route_path_str(p: RoutePath) -> Seq<char> {
    match p {
        RoutePath::Root => "/"@,
        RoutePath::Status => "/status"@,
        RoutePath::ManualChecks => "/manual-checks"@,
        RoutePath::Init => "/init"@,
        RoutePath::ContextDataset => "/context-dataset"@,
        RoutePath::PeriodDataset => "/period-dataset"@,
        RoutePath::Extract => "/extract"@,
        RoutePath::Run => "/run"@,
        RoutePath::Reset => "/reset"@,
    }
}

/// Reveal the contents of every path literal, so that the literals are known
/// to be pairwise distinct.
proof fn reveal_route_path_literals()
    ensures
        route_path_str(RoutePath::Root) == "/"@,
        route_path_str(RoutePath::Status) == "/status"@,
        route_path_str(RoutePath::ManualChecks) == "/manual-checks"@,
        route_path_str(RoutePath::Init) == "/init"@,
        route_path_str(RoutePath::ContextDataset) == "/context-dataset"@,
        route_path_str(RoutePath::PeriodDataset) == "/period-dataset"@,
        route_path_str(RoutePath::Extract) == "/extract"@,
        route_path_str(RoutePath::Run) == "/run"@,
        route_path_str(RoutePath::Reset) == "/reset"@,
        forall|p: RoutePath, q: RoutePath|
            route_path_str(p) == route_path_str(q) ==> p == q,
{
    reveal_strlit("/");
    reveal_strlit("/status");
    reveal_strlit("/manual-checks");
    reveal_strlit("/init");
    reveal_strlit("/context-dataset");
    reveal_strlit("/period-dataset");
    reveal_strlit("/extract");
    reveal_strlit("/run");
    reveal_strlit("/reset");
    assert forall|p: RoutePath, q: RoutePath|
        route_path_str(p) == route_path_str(q) implies p == q by {
        assert(route_path_str(RoutePath::Root).len() == 1);
        assert(route_path_str(RoutePath::Status).len() == 7);
        assert(route_path_str(RoutePath::ManualChecks).len() == 14);
        assert(route_path_str(RoutePath::Init).len() == 5);
        assert(route_path_str(RoutePath::ContextDataset).len() == 16);
        assert(route_path_str(RoutePath::PeriodDataset).len() == 15);
        assert(route_path_str(RoutePath::Extract).len() == 8);
        assert(route_path_str(RoutePath::Run).len() == 4);
        assert(route_path_str(RoutePath::Reset).len() == 6);
    }
}

impl RoutePath {
    /// The textual form of this path.
    pub fn as_ref(&self) -> (r: &'static str)
        ensures
            r@ == route_path_str(*self),
    {
        match self {
            RoutePath::Root => "/",
            RoutePath::Status => "/status",
            RoutePath::ManualChecks => "/manual-checks",
            RoutePath::Init => "/init",
            RoutePath::ContextDataset => "/context-dataset",
            RoutePath::PeriodDataset => "/period-dataset",
            RoutePath::Extract => "/extract",
            RoutePath::Run => "/run",
            RoutePath::Reset => "/reset",
        }
    }

    /// Parse a request path: the unique path whose textual form is `s`, or an
    /// error when no path has that form.
    pub fn from_str(s: &str) -> (r: Result<RoutePath, ()>)
        ensures
            forall|p: RoutePath| r == Ok::<RoutePath, ()>(p) ==> route_path_str(p) == s@,
            forall|p: RoutePath| route_path_str(p) == s@ ==> r == Ok::<RoutePath, ()>(p),
            r is Err <==> (forall|p: RoutePath| route_path_str(p) != s@),
    {
        proof {
            reveal_route_path_literals();
        }
        if str_eq(s, "/") {
            Ok(RoutePath::Root)
        } else if str_eq(s, "/status") {
            Ok(RoutePath::Status)
        } else if str_eq(s, "/manual-checks") {
            Ok(RoutePath::ManualChecks)
        } else if str_eq(s, "/init") {
            Ok(RoutePath::Init)
        } else if str_eq(s, "/context-dataset") {
            Ok(RoutePath::ContextDataset)
        } else if str_eq(s, "/period-dataset") {
            Ok(RoutePath::PeriodDataset)
        } else if str_eq(s, "/extract") {
            Ok(RoutePath::Extract)
        } else if str_eq(s, "/run") {
            Ok(RoutePath::Run)
        } else if str_eq(s, "/reset") {
            Ok(RoutePath::Reset)
        } else {
            Err(())
        }
    }
}

} // verus!
