//! Path syntax, as `std::path` reads it.
//!
//! Paths travel through the library as text. The three questions the library asks about a
//! path's syntax are answered by `std::path`, and each answer has a name here so that
//! contracts can speak of it. None of them looks at the file system: each is decided by
//! the spelling of the path and the path syntax of the platform the library is built for.

use vstd::prelude::*;

verus! {

/// Whether `std::path::Path::is_relative` holds of the path spelled `path`.
pub uninterp spec fn path_is_relative(path: Seq<char>) -> bool;

/// What `std::path::Path::parent` yields for the path spelled `path`: the path without
/// its last component, or nothing where the path ends in a root or is empty.
pub uninterp spec fn path_parent(path: Seq<char>) -> Option<Seq<char>>;

/// What `std::path::Path::join` yields for the paths spelled `base` and `path`.
pub uninterp spec fn path_join(base: Seq<char>, path: Seq<char>) -> Seq<char>;

/// Calls `std::path::Path::is_relative`. Trusted: the result is the one named
/// [`path_is_relative`], that is, it depends on the spelling of the path alone.
#[verifier::external_body]
pub(crate) fn is_relative(path: &str) -> (relative: bool)
    ensures
        relative == path_is_relative(path@),
{
    std::path::Path::new(path).is_relative()
}

/// Calls `std::path::Path::parent`. Trusted: the result is the one named [`path_parent`].
/// The parent of a path given as text is a prefix of that text, so turning it back into
/// text loses nothing.
#[verifier::external_body]
pub(crate) fn parent(path: &str) -> (dir: Option<String>)
    ensures
        dir.deep_view() == path_parent(path@),
{
    match std::path::Path::new(path).parent() {
        Some(dir) => Some(dir.to_string_lossy().into_owned()),
        None => None,
    }
}

/// Calls `std::path::Path::join`. Trusted: the result is the one named [`path_join`].
/// Joining two paths given as text yields text, so turning the result back into text
/// loses nothing.
#[verifier::external_body]
pub(crate) fn join(base: &str, path: &str) -> (joined: String)
    ensures
        joined@ == path_join(base@, path@),
{
    std::path::Path::new(base).join(path).to_string_lossy().into_owned()
}

} // verus!
