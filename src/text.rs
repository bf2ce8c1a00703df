use vstd::prelude::*;

verus! {

/// Whether `s` begins with `p`.
pub(crate) fn has_prefix(s: &str, p: &str) -> (r: bool)
    ensures
        r == p@.is_prefix_of(s@),
{
    let n = s.unicode_len();
    let m = p.unicode_len();
    if m > n {
        return false;
    }
    let mut i: usize = 0;
    while i < m
        invariant
            m <= n,
            n == s@.len(),
            m == p@.len(),
            i <= m,
            forall|j: int| 0 <= j < i ==> p@[j] == s@[j],
        decreases m - i,
    {
        if p.get_char(i) != s.get_char(i) {
            assert(p@[i as int] != s@.subrange(0, m as int)[i as int]);
            return false;
        }
        i = i + 1;
    }
    assert(p@ =~= s@.subrange(0, m as int));
    true
}

/// Whether `a` and `b` hold the same text.
pub(crate) fn same_text(a: &str, b: &str) -> (r: bool)
    ensures
        r == (a@ == b@),
{
    if a.unicode_len() != b.unicode_len() {
        return false;
    }
    let r = has_prefix(a, b);
    if r {
        assert(a@ =~= b@);
    }
    r
}

} // verus!
