//! What this library asks of paths: a path relative to a root, and the last
//! component of a path.

use vstd::prelude::*;

verus! {

/// The path that leads from `base` to `path`, as `pathdiff` computes it.
pub uninterp spec fn relative_path_of(path: Seq<char>, base: Seq<char>) -> Option<Seq<char>>;

/// The last component of `path`, as `camino` (like `std::path`) reads it.
pub uninterp spec fn file_name_of(path: Seq<char>) -> Option<Seq<char>>;

/// The view of an optional string.
pub open spec fn opt_string_view(s: Option<String>) -> Option<Seq<char>> {
    match s {
        Some(t) => Some(t@),
        None => None,
    }
}

/// Relies on `pathdiff::diff_utf8_paths`: the path from `base` to `path`,
/// or none where it cannot tell one.
#[verifier::external_body]
pub(crate) fn relative_path(path: &str, base: &str) -> (r: Option<String>)
    ensures
        opt_string_view(r) == relative_path_of(path@, base@),
{
    pathdiff::diff_utf8_paths(path, base).map(|p| p.into_string())
}

/// Relies on `camino::Utf8Path::file_name`: the last component of `path`,
/// or none where the path ends in `..` or is a root.
#[verifier::external_body]
pub(crate) fn file_name(path: &str) -> (r: Option<String>)
    ensures
        opt_string_view(r) == file_name_of(path@),
{
    cargo_metadata::camino::Utf8Path::new(path).file_name().map(|n| n.to_string())
}

} // verus!
