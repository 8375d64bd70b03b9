//! The browse flow: from a request fragment and filesystem metadata to a
//! plan of what to serve.

use vstd::prelude::*;
use crate::paths::{is_safe_fragment, resolved_spec, resolve_request_path};

verus! {

/// What filesystem metadata said about a resolved path.
#[derive(Clone, Copy, Debug, PartialEq, Eq, Structural)]
pub enum TargetKind {
    /// The path does not exist, or its metadata could not be read.
    Missing,
    /// The path is a directory.
    Dir,
    /// The path is a regular file.
    File,
    /// The path exists but is neither a directory nor a regular file.
    Other,
}

pub enum BrowsePlan {
    ShowError { status: u16, body: String },
    ListDir { path: String },
    ServeFile { path: String },
}

pub open spec fn missing_fragment_body() -> Seq<char> {
    "err: please provide a file path"@
}

pub open spec fn escaping_fragment_body() -> Seq<char> {
    "err: path escapes the public root"@
}

pub open spec fn not_found_body() -> Seq<char> {
    "Content not found in path"@
}

/// Resolves the browse fragment: a missing fragment is rejected with
/// 400, one that would escape the public root with 403; otherwise the
/// root-confined path comes back.
pub fn resolve_fragment(fragment: Option<&str>) -> (r: Result<String, (u16, String)>)
    ensures
        fragment is None ==> (r matches Err(e) && e.0 == 400 && e.1@ == missing_fragment_body()),
        fragment matches Some(f) ==> (!is_safe_fragment(f@) ==> (r matches Err(e) && e.0 == 403
            && e.1@ == escaping_fragment_body())),
        fragment matches Some(f) ==> (is_safe_fragment(f@) ==> (r matches Ok(p) && p@
            == resolved_spec(f@))),
{
    match fragment {
        None => Err((400, String::from_str("err: please provide a file path"))),
        Some(f) => match resolve_request_path(f) {
            None => Err((403, String::from_str("err: path escapes the public root"))),
            Some(p) => Ok(p),
        },
    }
}

/// Plans the response for a resolved path once its metadata is known: a
/// directory is listed, a regular file is served, and anything missing
/// or special yields a 404 error — never a file body or a listing.
pub fn plan_for_target(path: String, kind: TargetKind) -> (r: BrowsePlan)
    ensures
        kind is Dir ==> (r matches BrowsePlan::ListDir { path: p } && p@ == path@),
        kind is File ==> (r matches BrowsePlan::ServeFile { path: p } && p@ == path@),
        kind is Missing || kind is Other ==> (r matches BrowsePlan::ShowError { status, body }
            && status == 404 && body@ == not_found_body()),
{
    match kind {
        TargetKind::Dir => BrowsePlan::ListDir { path },
        TargetKind::File => BrowsePlan::ServeFile { path },
        TargetKind::Missing | TargetKind::Other => BrowsePlan::ShowError {
            status: 404,
            body: String::from_str("Content not found in path"),
        },
    }
}

/// The placeholder body of the home page.
pub fn home_page() -> (r: String)
    ensures
        r@ == "QWE"@,
{
    String::from_str("QWE")
}

} // verus!
