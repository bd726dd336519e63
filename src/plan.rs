use vstd::prelude::*;

use crate::entry::{Entry, key_le};

verus! {

broadcast use vstd::seq_lib::group_to_multiset_ensures;

/// Entries ordered by key: every earlier entry is processed no later than every later one.
pub open spec fn sorted_by_key(s: Seq<Entry>) -> bool {
    forall|i: int, j: int| 0 <= i < j < s.len() ==> key_le(#[trigger] s[i], #[trigger] s[j])
}

/// Where `e` goes in `s`: right after the last entry whose key is not above `e`'s.
pub open spec fn insert_pos(s: Seq<Entry>, e: Entry) -> nat
    decreases s.len(),
{
    if s.len() == 0 {
        0
    } else if key_le(s.last(), e) {
        s.len()
    } else {
        insert_pos(s.drop_last(), e)
    }
}

/// The stable ordering of `s` by key: entries with equal keys keep their input order.
pub open spec fn plan_order(s: Seq<Entry>) -> Seq<Entry>
    decreases s.len(),
{
    if s.len() == 0 {
        Seq::empty()
    } else {
        let p = plan_order(s.drop_last());
        p.insert(insert_pos(p, s.last()) as int, s.last())
    }
}

proof fn lemma_key_le_total(a: Entry, b: Entry)
    ensures
        key_le(a, b) || key_le(b, a),
{
}

proof fn lemma_insert_pos(s: Seq<Entry>, e: Entry)
    requires
        sorted_by_key(s),
    ensures
        insert_pos(s, e) <= s.len(),
        forall|i: int| 0 <= i < insert_pos(s, e) ==> key_le(#[trigger] s[i], e),
        forall|i: int| insert_pos(s, e) <= i < s.len() ==> !key_le(#[trigger] s[i], e),
    decreases s.len(),
{
    if s.len() > 0 {
        if !key_le(s.last(), e) {
            assert(sorted_by_key(s.drop_last()));
            lemma_insert_pos(s.drop_last(), e);
            assert forall|i: int| insert_pos(s, e) <= i < s.len() implies !key_le(#[trigger] s[i], e) by {
                if i < s.len() - 1 {
                    assert(s.drop_last()[i] == s[i]);
                }
            }
            assert forall|i: int| 0 <= i < insert_pos(s, e) implies key_le(#[trigger] s[i], e) by {
                assert(s.drop_last()[i] == s[i]);
            }
        } else {
            assert forall|i: int| 0 <= i < insert_pos(s, e) implies key_le(#[trigger] s[i], e) by {
                if i < s.len() - 1 {
                    assert(key_le(s[i], s[s.len() - 1]));
                }
            }
        }
    }
}

proof fn lemma_plan_order(s: Seq<Entry>)
    ensures
        sorted_by_key(plan_order(s)),
        plan_order(s).to_multiset() == s.to_multiset(),
        plan_order(s).len() == s.len(),
    decreases s.len(),
{
    if s.len() > 0 {
        let p = plan_order(s.drop_last());
        let e = s.last();
        lemma_plan_order(s.drop_last());
        lemma_insert_pos(p, e);
        let k = insert_pos(p, e) as int;
        let q = p.insert(k, e);
        assert forall|i: int, j: int| 0 <= i < j < q.len() implies key_le(#[trigger] q[i], #[trigger] q[j]) by {
            if j < k {
            } else if j == k {
            } else if i < k {
                assert(key_le(p[i], e));
                lemma_key_le_total(p[j - 1], e);
            } else if i == k {
                lemma_key_le_total(p[j - 1], e);
            } else {
                assert(key_le(p[i - 1], p[j - 1]));
            }
        }
        vstd::seq_lib::to_multiset_insert(p, k, e);
        assert(s == s.drop_last().push(e));
        vstd::seq_lib::to_multiset_build(s.drop_last(), e);
    }
}

/// Orders a listing for processing: files before directories before other types, smaller
/// sizes first among equal types, entries with equal keys in their input order.
pub fn order_entries(entries: Vec<Entry>) -> (r: Vec<Entry>)
    ensures
        r@ == plan_order(entries@),
        sorted_by_key(r@),
        r@.to_multiset() == entries@.to_multiset(),
{
    let ghost orig = entries@;
    let n = entries.len();
    let mut rest = entries;
    let mut out: Vec<Entry> = Vec::new();
    let mut k: usize = 0;
    while rest.len() > 0
        invariant
            k + rest@.len() == orig.len(),
            orig.len() == n,
            rest@ == orig.skip(k as int),
            out@ == plan_order(orig.take(k as int)),
            sorted_by_key(out@),
        decreases rest@.len(),
    {
        let e = rest.remove(0);
        proof {
            lemma_insert_pos(out@, e);
        }
        let mut j: usize = out.len();
        assert(out@.take(out@.len() as int) == out@);
        while j > 0 && !out[j - 1].key_le(&e)
            invariant
                j <= out@.len(),
                insert_pos(out@, e) == insert_pos(out@.take(j as int), e),
            decreases j,
        {
            assert(out@.take(j as int).drop_last() == out@.take(j - 1));
            j = j - 1;
        }
        proof {
            assert(out@.take(out@.len() as int) == out@);
            if j > 0 {
                assert(out@.take(j as int).last() == out@[j - 1]);
            }
            assert(insert_pos(out@.take(j as int), e) == j);
            let t = orig.take(k + 1);
            assert(t.drop_last() == orig.take(k as int));
            assert(t.last() == e);
        }
        out.insert(j, e);
        k = k + 1;
        proof {
            lemma_plan_order(orig.take(k as int));
        }
    }
    proof {
        assert(orig.take(k as int) == orig);
        lemma_plan_order(orig);
    }
    out
}

} // verus!
