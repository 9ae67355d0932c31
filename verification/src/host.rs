//! What the library asks of the host: how a path is formed, whether a file
//! is there, whether a command is on the search path. None of these calls is
//! verified; each contract says what is taken on trust.

use vstd::prelude::*;

verus! {

/// The path that `Path::join` of the standard library forms from a directory
/// and a file name, on the target the library is built for. It is a function
/// of the two texts alone.
pub uninterp spec fn joined_path(dir: Seq<char>, name: Seq<char>) -> Seq<char>;

/// Calls `Path::join`. Nothing is proved of the call: the contract only names
/// its result, the path of `name` under `dir`.
#[verifier::external_body]
pub(crate) fn join_path(dir: &str, name: &str) -> (path: String)
    ensures
        path@ == joined_path(dir@, name@),
{
    std::path::Path::new(dir).join(name).to_string_lossy().into_owned()
}

/// Calls `Path::is_file`: whether `path` names a regular file right now. The
/// answer depends on what is on disk, so nothing is claimed of it.
#[verifier::external_body]
pub(crate) fn is_regular_file(path: &str) -> (present: bool) {
    std::path::Path::new(path).is_file()
}

/// Calls `which::which`: whether the name is an executable that can be
/// reached, as a path or through the search path. The answer depends on the
/// environment and on what is on disk, so nothing is claimed of it.
#[verifier::external_body]
pub(crate) fn on_search_path(command: &str) -> (found: bool) {
    which::which(command).is_ok()
}

} // verus!
