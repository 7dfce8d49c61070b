//! Mapping a path under the first root to its mirror under the second.

use vstd::prelude::*;
use crate::error::CompareError;

verus! {

/// `path` relative to `base`, as `std::path::Path::strip_prefix` gives it, or
/// `None` where `base` is not a prefix of `path`.
pub uninterp spec fn stripped(path: Seq<char>, base: Seq<char>) -> Option<Seq<char>>;

/// `rel` joined onto `base`, as `std::path::Path::join` gives it.
pub uninterp spec fn joined(base: Seq<char>, rel: Seq<char>) -> Seq<char>;

/// The mirror of `path`: its part below `root_a`, joined onto `root_b`.
/// `None` where `path` does not lie under `root_a`.
pub open spec fn mirror_of(path: Seq<char>, root_a: Seq<char>, root_b: Seq<char>) -> Option<
    Seq<char>,
> {
    match stripped(path, root_a) {
        Some(rel) => Some(joined(root_b, rel)),
        None => None,
    }
}

/// Calls `std::path::Path::strip_prefix` with `path` as the path and `base`
/// as the prefix. The remainder of a path that is text is text again, so it
/// is handed back as a `String` with nothing lost.
#[verifier::external_body]
fn strip_prefix(path: &str, base: &str) -> (r: Result<String, std::path::StripPrefixError>)
    ensures
        match r {
            Ok(rel) => stripped(path@, base@) == Some(rel@),
            Err(_) => stripped(path@, base@) is None,
        },
{
    match std::path::Path::new(path).strip_prefix(base) {
        Ok(rel) => Ok(rel.to_string_lossy().into_owned()),
        Err(e) => Err(e),
    }
}

/// Calls `std::path::Path::join` with `base` as the path and `rel` as what is
/// joined onto it. Both are text, and so is the result.
#[verifier::external_body]
fn join(base: &str, rel: &str) -> (r: String)
    ensures
        r@ == joined(base@, rel@),
{
    std::path::Path::new(base).join(rel).to_string_lossy().into_owned()
}

/// Where to look in the second tree for the counterpart of `path`. Fails
/// exactly when `path` does not lie under `root_a`.
pub fn mirror_path(path: &str, root_a: &str, root_b: &str) -> (r: Result<String, CompareError>)
    ensures
        match r {
            Ok(mirror) => mirror_of(path@, root_a@, root_b@) == Some(mirror@),
            Err(e) => mirror_of(path@, root_a@, root_b@) is None && e is StripPrefix,
        },
{
    match strip_prefix(path, root_a) {
        Ok(rel) => Ok(join(root_b, rel.as_str())),
        Err(e) => Err(CompareError::from(e)),
    }
}

} // verus!
