//! The two questions asked of a path: its file name and its parent.
//!
//! Both are answered by `std::path::Path`, on the text of the path, read as a
//! Unix path: `/` separates its components. Their answers are not proved here;
//! they are given names so that contracts can speak of them.

use vstd::prelude::*;

verus! {

/// The final component of a path as `std::path::Path::file_name` gives it, or
/// `None` where the path has none (the empty path, a root, a path that ends in
/// `..`).
pub uninterp spec fn file_name_of(path: Seq<char>) -> Option<Seq<char>>;

/// The path without its final component as `std::path::Path::parent` gives it,
/// or `None` where the path ends in a root or is empty. The parent of a bare
/// file name is the empty path.
pub uninterp spec fn parent_of(path: Seq<char>) -> Option<Seq<char>>;

/// Calls `std::path::Path::file_name` on the path with this text. Trusted: the
/// result is what that method returns for this text, as text. The file name is
/// a piece of the given text, so turning it back into a `String` loses nothing.
#[verifier::external_body]
pub(crate) fn file_name(path: &str) -> (name: Option<String>)
    ensures
        name.deep_view() == file_name_of(path@),
{
    match std::path::Path::new(path).file_name() {
        Some(name) => Some(name.to_string_lossy().into_owned()),
        None => None,
    }
}

/// Calls `std::path::Path::parent` on the path with this text. Trusted: the
/// result is what that method returns for this text, as text. The parent is a
/// piece of the given text, so turning it back into a `String` loses nothing.
#[verifier::external_body]
pub(crate) fn parent(path: &str) -> (directory: Option<String>)
    ensures
        directory.deep_view() == parent_of(path@),
{
    match std::path::Path::new(path).parent() {
        Some(directory) => Some(directory.to_string_lossy().into_owned()),
        None => None,
    }
}

} // verus!
