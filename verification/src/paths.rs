//! File-system paths, held as strings.
//!
//! Path syntax is the standard library's: joining and taking the file name
//! go through `std::path::Path`.  Whether a path exists is a question about
//! the disk at the time of the call.

use vstd::prelude::*;

verus! {

/// The path that `std::path::Path::join` builds from `base` and `name`
/// (for this crate's target platform).
pub uninterp spec fn spec_path_join(base: Seq<char>, name: Seq<char>) -> Seq<char>;

/// The final component of `path`, as `std::path::Path::file_name` gives it.
pub uninterp spec fn spec_path_file_name(path: Seq<char>) -> Option<Seq<char>>;

/// Calls `std::path::Path::join`.  The contract claims only that the result
/// is the one that the standard library computes from the two arguments.
#[verifier::external_body]
pub(crate) fn path_join(base: &str, name: &str) -> (r: String)
    ensures
        r@ == spec_path_join(base@, name@),
{
    std::path::Path::new(base).join(name).to_string_lossy().into_owned()
}

/// Calls `std::path::Path::file_name`.  The contract claims only that the
/// result is the one that the standard library computes from `path`.
#[verifier::external_body]
pub(crate) fn path_file_name(path: &str) -> (r: Option<String>)
    ensures
        match r {
            Some(n) => spec_path_file_name(path@) == Some(n@),
            None => spec_path_file_name(path@) is None,
        },
{
    std::path::Path::new(path).file_name().map(|n| n.to_string_lossy().into_owned())
}

/// Calls `std::path::Path::exists`.  The answer depends on the disk at the
/// time of the call, so nothing is stated of it.
#[verifier::external_body]
pub(crate) fn path_exists(path: &str) -> (r: bool) {
    std::path::Path::new(path).exists()
}

} // verus!
