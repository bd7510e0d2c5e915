//! Names as the platform stores them: text that ends at its first NUL.

use vstd::prelude::*;

verus! {

/// Whether `s` can be stored as a NUL-terminated byte sequence without
/// being cut short: none of its characters is NUL. The empty text qualifies.
pub open spec fn is_c_text(s: Seq<char>) -> bool {
    forall|i: int| 0 <= i < s.len() ==> s[i] != '\0'
}

/// Decides [`is_c_text`] for a string.
pub fn check_c_text(s: &str) -> (ok: bool)
    ensures
        ok == is_c_text(s@),
{
    for c in it: s.chars()
        invariant
            it.seq() == s@,
            forall|j: int| 0 <= j < it.index() ==> s@[j] != '\0',
    {
        if c == '\0' {
            return false;
        }
    }
    true
}

} // verus!
