//! Name normalization applied at registration time.
//!
//! Stored names are lowercased before persistence, so lookups by name are
//! case-insensitive by construction rather than by query-time rewriting.

use vstd::prelude::*;

verus! {

/// What lowercasing yields on a given character sequence. The result is a
/// function of the characters alone.
pub uninterp spec fn lower_of(s: Seq<char>) -> Seq<char>;

/// Relies on str::to_lowercase: the result depends on the characters alone,
/// and an empty string stays empty.
#[verifier::external_body]
pub(crate) fn lowercase(s: &str) -> (r: String)
    ensures
        r@ == lower_of(s@),
        s@.len() == 0 ==> r@.len() == 0,
{
    s.to_lowercase()
}

} // verus!
