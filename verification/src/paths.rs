//! Path arithmetic on text.
//!
//! Paths are held as UTF-8 text. What a path means is left to `std::path`,
//! which goes by the rules of the platform that the crate is built for: the
//! functions here hand it text and take text back, and their contracts give
//! each result a name of its own.

use vstd::prelude::*;

verus! {

/// The path that `std::path::Path::join` builds from `base` and `name`.
pub uninterp spec fn path_join(base: Seq<char>, name: Seq<char>) -> Seq<char>;

/// The directory that `std::path::Path::parent` finds above `path`, if any.
pub uninterp spec fn path_parent(path: Seq<char>) -> Option<Seq<char>>;

/// The form in which `std::path::Path` shows `path` under `{:?}`.
pub uninterp spec fn path_debug(path: Seq<char>) -> Seq<char>;

/// Adjoins `name` to `base` by the platform's rules.
///
/// Calls `std::path::Path::join`. The contract names the result and claims
/// nothing else of it. Both arguments are UTF-8 text, and so is the joined
/// path, so turning it back into a `String` loses nothing.
#[verifier::external_body]
pub(crate) fn join_path(base: &str, name: &str) -> (joined: String)
    ensures
        joined@ == path_join(base@, name@),
{
    std::path::Path::new(base).join(name).to_string_lossy().into_owned()
}

/// The directory above `path`, where the platform sees one.
///
/// Calls `std::path::Path::parent`. The contract names the result and
/// claims nothing else of it. The parent is a prefix of `path`, cut at a
/// separator, so it is UTF-8 text as `path` is.
#[verifier::external_body]
pub(crate) fn parent_path(path: &str) -> (parent: Option<String>)
    ensures
        parent.deep_view() == path_parent(path@),
{
    std::path::Path::new(path).parent().map(|dir| dir.to_string_lossy().into_owned())
}

/// `path` as an error message shows it: quoted, with its odd characters
/// escaped.
///
/// Formats a `std::path::Path` with `{:?}`. The contract names the result
/// and claims nothing else of it.
#[verifier::external_body]
pub(crate) fn debug_path(path: &str) -> (quoted: String)
    ensures
        quoted@ == path_debug(path@),
{
    format!("{:?}", std::path::Path::new(path))
}

} // verus!
