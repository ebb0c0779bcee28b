//! File system paths, handled as strings.
use vstd::prelude::*;

verus! {

/// The parent of a path, as `std::path::Path::parent` computes it: `None` for a
/// root or an empty path.
pub uninterp spec fn path_parent_spec(path: Seq<char>) -> Option<Seq<char>>;

/// A path extended by one more component, as `std::path::Path::join` computes it.
pub uninterp spec fn path_join_spec(base: Seq<char>, part: Seq<char>) -> Seq<char>;

/// Calls `std::path::Path::parent` on `path`. The contract only names the
/// result; the parent of a path read from a `&str` is valid UTF-8, so the
/// conversion back to a `String` loses nothing.
#[verifier::external_body]
pub(crate) fn path_parent(path: &str) -> (r: Option<String>)
    ensures
        match r {
            Some(p) => path_parent_spec(path@) == Some(p@),
            None => path_parent_spec(path@) is None,
        },
{
    std::path::Path::new(path).parent().map(|p| p.to_string_lossy().into_owned())
}

/// Calls `std::path::Path::join`. The contract only names the result.
#[verifier::external_body]
pub(crate) fn path_join(base: &str, part: &str) -> (r: String)
    ensures
        r@ == path_join_spec(base@, part@),
{
    std::path::Path::new(base).join(part).to_string_lossy().into_owned()
}

} // verus!
