//! Which strings are accepted as the address of a resource.

use vstd::prelude::*;
use vstd::string::StrSliceExecFns;

verus! {

/// An address is accepted when it begins with `http://` or `https://`.
pub open spec fn is_http_url(url: Seq<char>) -> bool {
    "http://"@.is_prefix_of(url) || "https://"@.is_prefix_of(url)
}

/// Whether `text` begins with `prefix`, character by character.
pub fn has_prefix(text: &str, prefix: &str) -> (found: bool)
    ensures
        found == prefix@.is_prefix_of(text@),
{
    let n: usize = prefix.unicode_len();
    let m: usize = text.unicode_len();
    if m < n {
        return false;
    }
    let mut i: usize = 0;
    while i < n
        invariant
            i <= n <= m,
            n == prefix@.len(),
            m == text@.len(),
            forall|k: int| 0 <= k < i ==> prefix@[k] == text@[k],
        decreases n - i,
    {
        if text.get_char(i) != prefix.get_char(i) {
            assert(prefix@[i as int] != text@.subrange(0, n as int)[i as int]);
            return false;
        }
        i = i + 1;
    }
    assert(prefix@ =~= text@.subrange(0, n as int));
    true
}

/// Whether `url` is accepted as the address of a resource.
pub fn check_http_url(url: &str) -> (ok: bool)
    ensures
        ok == is_http_url(url@),
{
    has_prefix(url, "http://") || has_prefix(url, "https://")
}

} // verus!
