//! File-system paths as text. The service runs on Linux, so these are Unix
//! paths. Joining paths and taking a path's last component are left to the
//! standard library; their results are named here so that contracts can
//! speak of them.

use vstd::prelude::*;

verus! {

/// The path that `std::path::Path::join` gives for `base` and `child`.
pub uninterp spec fn joined(base: Seq<char>, child: Seq<char>) -> Seq<char>;

/// The last component that `std::path::Path::file_name` gives for `path`,
/// if it gives one.
pub uninterp spec fn file_name_of(path: Seq<char>) -> Option<Seq<char>>;

/// `Path::join` of the standard library, on paths that are text: the result
/// is the named join of the two arguments. Nothing more is claimed of it.
#[verifier::external_body]
pub(crate) fn path_join(base: &str, child: &str) -> (r: String)
    ensures
        r@ == joined(base@, child@),
{
    std::path::Path::new(base).join(child).to_string_lossy().into_owned()
}

/// `Path::file_name` of the standard library, on a path that is text: the
/// result is the named last component of the argument, or nothing where the
/// path has none. Nothing more is claimed of it.
#[verifier::external_body]
pub(crate) fn path_file_name(path: &str) -> (r: Option<String>)
    ensures
        r.deep_view() == file_name_of(path@),
{
    match std::path::Path::new(path).file_name() {
        Some(name) => Some(name.to_string_lossy().into_owned()),
        None => None,
    }
}

} // verus!
