use vstd::prelude::*;

verus! {

/// Whether `s` begins with two dashes.
pub open spec fn has_dash_prefix(s: Seq<char>) -> bool {
    s.len() >= 2 && s[0] == '-' && s[1] == '-'
}

/// `s` with every leading pair of dashes taken off.
pub open spec fn strip_dash_pairs(s: Seq<char>) -> Seq<char>
    decreases s.len(),
{
    if has_dash_prefix(s) {
        strip_dash_pairs(s.subrange(2, s.len() as int))
    } else {
        s
    }
}

/// Whether `a` and `b` hold the same characters.
pub fn str_equal(a: &str, b: &str) -> (r: bool)
    ensures
        r == (a@ == b@),
{
    let n = a.unicode_len();
    if n != b.unicode_len() {
        return false;
    }
    let mut i: usize = 0;
    while i < n
        invariant
            n == a@.len(),
            n == b@.len(),
            i <= n,
            forall|j: int| 0 <= j < i ==> a@[j] == b@[j],
        decreases n - i,
    {
        if a.get_char(i) != b.get_char(i) {
            return false;
        }
        i = i + 1;
    }
    assert(a@ =~= b@);
    true
}

/// Whether `s` begins with two dashes.
pub fn starts_with_dashes(s: &str) -> (r: bool)
    ensures
        r == has_dash_prefix(s@),
{
    let n = s.unicode_len();
    n >= 2 && s.get_char(0) == '-' && s.get_char(1) == '-'
}

/// `s` with every leading pair of dashes taken off.
pub fn trim_dash_pairs(s: &str) -> (r: String)
    ensures
        r@ == strip_dash_pairs(s@),
{
    let n = s.unicode_len();
    let mut i: usize = 0;
    assert(s@.subrange(0, n as int) =~= s@);
    loop
        invariant
            n == s@.len(),
            i <= n,
            strip_dash_pairs(s@) == strip_dash_pairs(s@.subrange(i as int, n as int)),
        ensures
            i <= n,
            strip_dash_pairs(s@) == strip_dash_pairs(s@.subrange(i as int, n as int)),
            !has_dash_prefix(s@.subrange(i as int, n as int)),
        decreases n - i,
    {
        let ghost rest = s@.subrange(i as int, n as int);
        if n - i < 2 || s.get_char(i) != '-' || s.get_char(i + 1) != '-' {
            assert(!has_dash_prefix(rest));
            break;
        }
        assert(rest.subrange(2, rest.len() as int) =~= s@.subrange(i + 2, n as int));
        i = i + 2;
    }
    let rest = s.substring_char(i, n);
    rest.to_owned()
}

} // verus!
