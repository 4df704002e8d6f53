//! Verified character-level helpers on strings: equality, prefix tests,
//! slicing, and the slash normalizations the router and the static responder
//! rely on.

use vstd::prelude::*;

verus! {

/// The two sequences agree on every position below `n`.
pub open spec fn eq_up_to(a: Seq<char>, b: Seq<char>, n: int) -> bool {
    forall|k: int| 0 <= k < n ==> a[k] == b[k]
}

/// Character-for-character equality of two string slices.
pub fn str_eq(a: &str, b: &str) -> (r: bool)
    ensures
        r == (a@ == b@),
{
    let an = a.unicode_len();
    let bn = b.unicode_len();
    if an != bn {
        return false;
    }
    let mut i: usize = 0;
    while i < an
        invariant
            an == a@.len(),
            an == b@.len(),
            i <= an,
            eq_up_to(a@, b@, i as int),
        decreases an - i,
    {
        if a.get_char(i) != b.get_char(i) {
            return false;
        }
        i += 1;
    }
    proof {
        assert(a@ =~= b@);
    }
    true
}

/// `p` occurs at the start of `s`.
pub open spec fn is_prefix_of(p: Seq<char>, s: Seq<char>) -> bool {
    p.len() <= s.len() && s.subrange(0, p.len() as int) == p
}

/// Whether `s` begins with the characters of `p`.
pub fn str_starts_with(s: &str, p: &str) -> (r: bool)
    ensures
        r == is_prefix_of(p@, s@),
{
    let pn = p.unicode_len();
    let sn = s.unicode_len();
    if pn > sn {
        return false;
    }
    let mut i: usize = 0;
    while i < pn
        invariant
            pn == p@.len(),
            sn == s@.len(),
            pn <= sn,
            i <= pn,
            eq_up_to(s@, p@, i as int),
        decreases pn - i,
    {
        if s.get_char(i) != p.get_char(i) {
            proof {
                assert(s@.subrange(0, p@.len() as int)[i as int] == s@[i as int]);
            }
            return false;
        }
        i += 1;
    }
    proof {
        assert(s@.subrange(0, p@.len() as int) =~= p@);
    }
    true
}

/// The characters of `s` from position `k` on, as an owned string.
pub fn suffix_from(s: &str, k: usize) -> (r: String)
    requires
        k <= s@.len(),
    ensures
        r@ == s@.subrange(k as int, s@.len() as int),
{
    let n = s.unicode_len();
    String::from_str(s.substring_char(k, n))
}

/// A request path with one leading separator removed, the normal form under
/// which bundled assets are looked up.
pub open spec fn normalized_path(p: Seq<char>) -> Seq<char> {
    if p.len() > 0 && p[0] == '/' {
        p.subrange(1, p.len() as int)
    } else {
        p
    }
}

/// Strips a single leading `/` from `s`, if one is there.
pub fn strip_one_leading_slash(s: &str) -> (r: String)
    ensures
        r@ == normalized_path(s@),
{
    let n = s.unicode_len();
    if n > 0 && s.get_char(0) == '/' {
        String::from_str(s.substring_char(1, n))
    } else {
        String::from_str(s)
    }
}

/// `s` with every trailing `/` removed.
pub open spec fn without_trailing_slashes(s: Seq<char>) -> Seq<char>
    decreases s.len(),
{
    if s.len() > 0 && s.last() == '/' {
        without_trailing_slashes(s.drop_last())
    } else {
        s
    }
}

/// Removes every trailing `/` from `s`; the result never ends in a slash.
pub fn strip_trailing_slashes(s: &str) -> (r: String)
    ensures
        r@ == without_trailing_slashes(s@),
        r@.len() == 0 || r@.last() != '/',
{
    let n = s.unicode_len();
    let mut k: usize = n;
    proof {
        assert(s@.subrange(0, n as int) =~= s@);
    }
    while k > 0 && s.get_char(k - 1) == '/'
        invariant
            k <= n,
            n == s@.len(),
            without_trailing_slashes(s@) == without_trailing_slashes(
                s@.subrange(0, k as int),
            ),
        decreases k,
    {
        proof {
            let sub = s@.subrange(0, k as int);
            assert(sub.last() == s@[k - 1]);
            assert(sub.drop_last() =~= s@.subrange(0, k as int - 1));
        }
        k -= 1;
    }
    proof {
        let sub = s@.subrange(0, k as int);
        if k > 0 {
            assert(sub.last() == s@[k as int - 1]);
        }
    }
    String::from_str(s.substring_char(0, k))
}

} // verus!
