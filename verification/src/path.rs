//! File-system paths, held as text.

use vstd::prelude::*;

verus! {

/// The path `segment` adjoined to `base`, as `std::path::Path::join` builds it.
pub uninterp spec fn joined_path(base: Seq<char>, segment: Seq<char>) -> Seq<char>;

/// Calls `std::path::Path::new(base).join(segment)` and returns the result as
/// text. Its documentation says that an absolute `segment` replaces the path,
/// and that a relative one extends it after a separator; that is what the
/// contract states, for a nonempty relative segment and a nonempty base
/// without a trailing `/`. Both clauses hold on Unix targets, where `/` is
/// the separator and marks an absolute path. Other cases (an empty base or
/// segment, a base ending in `/`) are left to the name `joined_path`.
#[verifier::external_body]
fn path_join_text(base: &str, segment: &str) -> (p: String)
    ensures
        p@ == joined_path(base@, segment@),
        segment@.len() > 0 && segment@[0] == '/' ==> p@ == segment@,
        segment@.len() > 0 && segment@[0] != '/' && base@.len() > 0 && base@.last() != '/' ==> p@ == base@
            + seq!['/'] + segment@,
{
    std::path::Path::new(base).join(segment).to_string_lossy().into_owned()
}

/// The path `segment` adjoined to `base`.
pub fn join(base: &str, segment: &str) -> (p: String)
    ensures
        p@ == joined_path(base@, segment@),
        segment@.len() > 0 && segment@[0] == '/' ==> p@ == segment@,
        segment@.len() > 0 && segment@[0] != '/' && base@.len() > 0 && base@.last() != '/' ==> p@ == base@
            + seq!['/'] + segment@,
{
    path_join_text(base, segment)
}

} // verus!
