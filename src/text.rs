use vstd::prelude::*;

verus! {

/// Whether `t` occurs in `s` as a contiguous run of characters.
pub open spec fn has_substring(s: Seq<char>, t: Seq<char>) -> bool {
    exists|i: int| 0 <= i && i + t.len() <= s.len() && #[trigger] s.subrange(i, i + t.len()) == t
}

fn chars_of(s: &str) -> (r: Vec<char>)
    ensures
        r@ == s@,
{
    let n = s.unicode_len();
    let mut r: Vec<char> = Vec::new();
    let mut i: usize = 0;
    while i < n
        invariant
            n == s@.len(),
            i <= n,
            r@ == s@.take(i as int),
        decreases n - i,
    {
        r.push(s.get_char(i));
        i = i + 1;
        assert(r@ == s@.take(i as int));
    }
    assert(s@.take(n as int) == s@);
    r
}

/// Whether `needle` occurs in `haystack`.
pub fn contains_text(haystack: &str, needle: &str) -> (r: bool)
    ensures
        r == has_substring(haystack@, needle@),
{
    let s = chars_of(haystack);
    let t = chars_of(needle);
    if t.len() > s.len() {
        return false;
    }
    let n = s.len();
    let last = n - t.len();
    let mut i: usize = 0;
    while i <= last
        invariant
            s@ == haystack@,
            t@ == needle@,
            n == s@.len(),
            last == s@.len() - t@.len(),
            i <= last + 1,
            forall|a: int| 0 <= a < i ==> #[trigger] s@.subrange(a, a + t@.len()) != t@,
        decreases last + 1 - i,
    {
        let mut k: usize = 0;
        let mut same = true;
        while k < t.len() && same
            invariant
                i <= last,
                n == s@.len(),
                last == s@.len() - t@.len(),
                k <= t@.len(),
                same ==> forall|b: int| 0 <= b < k ==> s@[i + b] == t@[b],
                !same ==> s@.subrange(i as int, i + t@.len()) != t@,
            decreases t@.len() - k, if same { 1int } else { 0int },
        {
            if s[i + k] != t[k] {
                same = false;
                assert(s@.subrange(i as int, i + t@.len())[k as int] != t@[k as int]);
            } else {
                k = k + 1;
            }
        }
        if same {
            assert(s@.subrange(i as int, i + t@.len()) == t@);
            return true;
        }
        if i == last {
            proof {
                assert forall|a: int| 0 <= a && a + t@.len() <= s@.len() implies #[trigger] s@.subrange(a, a + t@.len()) != t@ by {
                    assert(a <= i);
                }
            }
            return false;
        }
        i = i + 1;
    }
    proof {
        assert forall|a: int| 0 <= a && a + t@.len() <= s@.len() implies #[trigger] s@.subrange(a, a + t@.len()) != t@ by {
            assert(a < i);
        }
    }
    false
}

} // verus!
