use vstd::prelude::*;
use vstd::string::{StrSliceExecFns, StringExecFns};

verus! {

/// poem's routing table.
#[verifier::external_type_specification]
#[verifier::external_body]
pub struct ExRoute(poem::Route);

/// poem's endpoint serving a whole directory.
#[verifier::external_type_specification]
#[verifier::external_body]
pub struct ExStaticFilesEndpoint(poem::endpoint::StaticFilesEndpoint);

/// poem's endpoint serving a single file.
#[verifier::external_type_specification]
#[verifier::external_body]
pub struct ExStaticFileEndpoint(poem::endpoint::StaticFileEndpoint);

/// Relies on poem's `StaticFilesEndpoint::new`: an endpoint serving the
/// files under the given directory.
#[verifier::external_body]
fn static_dir_endpoint(dir: &String) -> poem::endpoint::StaticFilesEndpoint {
    poem::endpoint::StaticFilesEndpoint::new(dir.clone())
}

/// Relies on poem's `StaticFileEndpoint::new`: an endpoint serving the one
/// file at the given path.
#[verifier::external_body]
fn static_file_endpoint(file: &String) -> poem::endpoint::StaticFileEndpoint {
    poem::endpoint::StaticFileEndpoint::new(file.clone())
}

/// A path prefix poem's router will nest without panicking: its nesting
/// asserts that the path holds no capture, wildcard or regex marker.
pub open spec fn nestable_prefix(prefix: Seq<char>) -> bool {
    forall|i: int|
        0 <= i < prefix.len() ==> #[trigger] prefix[i] != ':' && prefix[i] != '*' && prefix[i]
            != '<'
}

/// Decides whether poem's router will nest this prefix without panicking.
pub fn prefix_is_nestable(prefix: &String) -> (ok: bool)
    ensures
        ok == nestable_prefix(prefix@),
{
    let s = prefix.as_str();
    let len = s.unicode_len();
    let mut i: usize = 0;
    while i < len
        invariant
            i <= len,
            len == s@.len(),
            s@ == prefix@,
            forall|j: int|
                0 <= j < i ==> #[trigger] s@[j] != ':' && s@[j] != '*' && s@[j] != '<',
        decreases len - i,
    {
        let c = s.get_char(i);
        if c == ':' || c == '*' || c == '<' {
            return false;
        }
        i += 1;
    }
    true
}

/// Relies on poem's `Route::new` and `Route::nest`: a fresh table whose one
/// entry answers everything under the prefix with the given directory
/// endpoint. `nest` panics on a prefix holding ':', '*' or '<', so those
/// are excluded here; its remaining failure paths — a malformed path or a
/// duplicate in the table — cannot arise from one nest into a fresh table,
/// so the call returns the table.
#[verifier::external_body]
fn nest_dir(prefix: &String, endpoint: poem::endpoint::StaticFilesEndpoint) -> poem::Route
    requires
        nestable_prefix(prefix@),
{
    poem::Route::new().nest(prefix.as_str(), endpoint)
}

/// Relies on poem's `Route::new` and `Route::nest`: as `nest_dir`, for the
/// single-file endpoint.
#[verifier::external_body]
fn nest_file(prefix: &String, endpoint: poem::endpoint::StaticFileEndpoint) -> poem::Route
    requires
        nestable_prefix(prefix@),
{
    poem::Route::new().nest(prefix.as_str(), endpoint)
}

/// The path prefix an app serves under: "/" followed by its block name.
pub open spec fn prefix_spec(block_name: Seq<char>) -> Seq<char> {
    "/"@ + block_name
}

/// A directory and a file path joined as `std::path::PathBuf::join` joins
/// them: an absolute file, or an empty directory, gives the file alone; a
/// directory already ending in the separator gets no second one.
pub open spec fn joined_spec(dir: Seq<char>, file: Seq<char>) -> Seq<char> {
    if (file.len() > 0 && file[0] == '/') || dir.len() == 0 {
        file
    } else if dir[dir.len() - 1] == '/' {
        dir + file
    } else {
        dir + "/"@ + file
    }
}

/// How a static-files app answers requests: the whole work directory served
/// under its prefix, or one index file served there instead.
#[derive(Debug)]
pub enum RoutePlan {
    Directory { prefix: String, dir: String },
    IndexFile { prefix: String, file: String },
}

/// The routing table could not be built: the plan's prefix is not a path
/// poem's router takes. Holds the reason.
#[derive(Debug, PartialEq)]
pub struct RouteBuildError(pub String);

/// The path prefix a plan nests its endpoint under.
pub open spec fn plan_prefix(plan: RoutePlan) -> Seq<char> {
    match plan {
        RoutePlan::Directory { prefix, .. } => prefix@,
        RoutePlan::IndexFile { prefix, .. } => prefix@,
    }
}

/// Turns a serving plan into a poem routing table: it succeeds exactly when
/// the plan's prefix is free of ':', '*' and '<', the characters poem's
/// router refuses in a nest path, and fails with a fixed message otherwise.
pub fn build_route(plan: &RoutePlan) -> (route: Result<poem::Route, RouteBuildError>)
    ensures
        route is Ok <==> nestable_prefix(plan_prefix(*plan)),
        route matches Err(e) ==> e.0@ == "invalid nest path: ':', '*' and '<' are not allowed"@,
{
    match plan {
        RoutePlan::Directory { prefix, dir } => {
            if !prefix_is_nestable(prefix) {
                Err(
                    RouteBuildError(
                        String::from_str("invalid nest path: ':', '*' and '<' are not allowed"),
                    ),
                )
            } else {
                let endpoint = static_dir_endpoint(dir);
                Ok(nest_dir(prefix, endpoint))
            }
        }
        RoutePlan::IndexFile { prefix, file } => {
            if !prefix_is_nestable(prefix) {
                Err(
                    RouteBuildError(
                        String::from_str("invalid nest path: ':', '*' and '<' are not allowed"),
                    ),
                )
            } else {
                let endpoint = static_file_endpoint(file);
                Ok(nest_file(prefix, endpoint))
            }
        }
    }
}

} // verus!
