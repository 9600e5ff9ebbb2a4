//! Joining paths, which the standard library does for the platform at hand.
use vstd::prelude::*;

verus! {

/// The path `part` taken relative to `base`, as the platform joins them.
pub uninterp spec fn joined(base: Seq<char>, part: Seq<char>) -> Seq<char>;

/// Relies on `std::path::Path::join`: the result depends on the two paths
/// alone. Both are UTF-8, so showing the joined path loses nothing.
#[verifier::external_body]
pub(crate) fn join_path(base: &str, part: &str) -> (r: String)
    ensures
        r@ == joined(base@, part@),
{
    std::path::Path::new(base).join(part).display().to_string()
}

} // verus!
