//! Scheme-based path classification.
//!
//! A path identifier is *remote* iff its text begins with `http://` or
//! `https://`; everything else is local. Classification is a pure function of
//! the identifier's prefix.

use vstd::prelude::*;
use vstd::string::StrSliceExecFns;

verus! {

/// A path is remote iff it begins with one of the two HTTP scheme prefixes.
pub open spec fn is_remote(path: Seq<char>) -> bool {
    "http://"@.is_prefix_of(path) || "https://"@.is_prefix_of(path)
}

/// Whether `prefix` is a character-for-character prefix of `s`.
fn starts_with(s: &str, prefix: &str) -> (r: bool)
    ensures
        r == prefix@.is_prefix_of(s@),
{
    let n = prefix.unicode_len();
    if s.unicode_len() < n {
        return false;
    }
    let mut i: usize = 0;
    while i < n
        invariant
            0 <= i <= n,
            n == prefix@.len(),
            s@.len() >= n,
            forall|j: int| 0 <= j < i ==> s@[j] == prefix@[j],
        decreases n - i,
    {
        if s.get_char(i) != prefix.get_char(i) {
            proof {
                assert(s@.subrange(0, n as int)[i as int] == s@[i as int]);
            }
            return false;
        }
        i += 1;
    }
    proof {
        assert(prefix@ =~= s@.subrange(0, n as int));
    }
    true
}

/// Classifies a path identifier: true iff it is remote.
pub fn is_http(path: &str) -> (r: bool)
    ensures
        r == is_remote(path@),
{
    starts_with(path, "http://") || starts_with(path, "https://")
}

} // verus!
