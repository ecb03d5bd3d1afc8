//! The order in which names are listed: lexicographic by character code point,
//! which is also the byte order of their UTF-8 encoding.
use vstd::prelude::*;
use crate::text::{chars_of, views};

verus! {

/// `a` comes strictly before `b`.
pub open spec fn seq_lt(a: Seq<char>, b: Seq<char>) -> bool
    decreases a.len(),
{
    if a.len() == 0 {
        b.len() > 0
    } else if b.len() == 0 {
        false
    } else if a[0] != b[0] {
        (a[0] as u32) < (b[0] as u32)
    } else {
        seq_lt(a.drop_first(), b.drop_first())
    }
}

/// Each name comes strictly before the next ones.
pub open spec fn strictly_sorted(s: Seq<Seq<char>>) -> bool {
    forall|i: int, j: int| 0 <= i < j < s.len() ==> seq_lt(#[trigger] s[i], #[trigger] s[j])
}

/// Nothing comes before itself, and of two names at most one comes first.
pub proof fn lemma_lt_asymmetric(a: Seq<char>, b: Seq<char>)
    ensures
        !(seq_lt(a, b) && seq_lt(b, a)),
        !seq_lt(a, a),
    decreases a.len(),
{
    if a.len() > 0 && b.len() > 0 && a[0] == b[0] {
        lemma_lt_asymmetric(a.drop_first(), b.drop_first());
    }
    if a.len() > 0 {
        lemma_lt_asymmetric(a.drop_first(), a.drop_first());
    }
}

/// The order is transitive.
pub proof fn lemma_lt_transitive(a: Seq<char>, b: Seq<char>, c: Seq<char>)
    requires
        seq_lt(a, b),
        seq_lt(b, c),
    ensures
        seq_lt(a, c),
    decreases a.len(),
{
    if a.len() > 0 && a[0] == b[0] && b[0] == c[0] {
        lemma_lt_transitive(a.drop_first(), b.drop_first(), c.drop_first());
    }
}

/// Of two different names, one comes first.
pub proof fn lemma_lt_total(a: Seq<char>, b: Seq<char>)
    requires
        a != b,
    ensures
        seq_lt(a, b) || seq_lt(b, a),
    decreases a.len(),
{
    if a.len() == 0 {
        if b.len() == 0 {
            assert(a =~= b);
        }
    } else if b.len() > 0 && a[0] == b[0] {
        if a.drop_first() == b.drop_first() {
            assert(a =~= seq![a[0]] + a.drop_first());
            assert(b =~= seq![b[0]] + b.drop_first());
        }
        lemma_lt_total(a.drop_first(), b.drop_first());
    } else if b.len() > 0 {
        vstd::utf8::char_u32_cast(a[0], a[0] as u32);
        vstd::utf8::char_u32_cast(b[0], b[0] as u32);
    }
}

/// Past a common prefix, comparing two names is comparing what follows it.
proof fn lemma_lt_common_prefix(a: Seq<char>, b: Seq<char>, i: int)
    requires
        0 <= i <= a.len(),
        i <= b.len(),
        forall|j: int| 0 <= j < i ==> a[j] == b[j],
    ensures
        seq_lt(a, b) == seq_lt(a.skip(i), b.skip(i)),
    decreases i,
{
    if i == 0 {
        assert(a.skip(0) =~= a);
        assert(b.skip(0) =~= b);
    } else {
        assert(a[0] == b[0]);
        lemma_lt_common_prefix(a.drop_first(), b.drop_first(), i - 1);
        assert(a.drop_first().skip(i - 1) =~= a.skip(i));
        assert(b.drop_first().skip(i - 1) =~= b.skip(i));
    }
}

/// Whether `a` comes strictly before `b`.
pub fn str_lt(a: &str, b: &str) -> (r: bool)
    ensures
        r == seq_lt(a@, b@),
{
    let ca = chars_of(a);
    let cb = chars_of(b);
    let mut i: usize = 0;
    while i < ca.len() && i < cb.len()
        invariant
            i <= ca@.len(),
            i <= cb@.len(),
            ca@ == a@,
            cb@ == b@,
            forall|j: int| 0 <= j < i ==> ca@[j] == cb@[j],
        decreases ca.len() - i,
    {
        if ca[i] != cb[i] {
            proof {
                lemma_lt_common_prefix(a@, b@, i as int);
            }
            return (ca[i] as u32) < (cb[i] as u32);
        }
        i = i + 1;
    }
    proof {
        lemma_lt_common_prefix(a@, b@, i as int);
        if i == ca.len() {
            assert(a@.skip(i as int).len() == 0);
        } else {
            assert(b@.skip(i as int).len() == 0);
        }
    }
    ca.len() < cb.len()
}

/// Inserts `name` where it belongs in a strictly sorted list that does not hold it.
pub fn insert_sorted(list: &mut Vec<String>, name: String)
    requires
        strictly_sorted(views(old(list)@)),
        !views(old(list)@).contains(name@),
    ensures
        strictly_sorted(views(final(list)@)),
        views(final(list)@).to_set() == views(old(list)@).to_set().insert(name@),
        final(list)@.len() == old(list)@.len() + 1,
{
    let ghost before = views(list@);
    let mut p: usize = 0;
    while p < list.len() && !str_lt(name.as_str(), list[p].as_str())
        invariant
            p <= list@.len(),
            list@ == old(list)@,
            before == views(list@),
            forall|q: int| 0 <= q < p ==> seq_lt(#[trigger] before[q], name@),
            !before.contains(name@),
        decreases list.len() - p,
    {
        proof {
            assert(before[p as int] != name@) by {
                if before[p as int] == name@ {
                    assert(before.contains(name@));
                }
            }
            lemma_lt_total(before[p as int], name@);
        }
        p = p + 1;
    }
    let ghost np = p as int;
    proof {
        if np < before.len() {
            assert(seq_lt(name@, before[np]));
        }
    }
    list.insert(p, name);
    let ghost after = views(list@);
    assert(after =~= before.insert(np, name@));
    assert(strictly_sorted(after)) by {
        assert forall|i: int, j: int| 0 <= i < j < after.len() implies seq_lt(#[trigger] after[i], #[trigger] after[j]) by {
            if j < np {
            } else if i < np && j == np {
            } else if i < np && j > np {
                assert(after[j] == before[j - 1]);
                if j - 1 > np {
                    assert(seq_lt(before[np], before[j - 1]));
                    lemma_lt_transitive(name@, before[np], before[j - 1]);
                }
                lemma_lt_transitive(after[i], name@, after[j]);
            } else if i == np {
                assert(after[j] == before[j - 1]);
                if j - 1 > np {
                    assert(seq_lt(before[np], before[j - 1]));
                    lemma_lt_transitive(name@, before[np], before[j - 1]);
                }
            } else {
                assert(after[i] == before[i - 1]);
                assert(after[j] == before[j - 1]);
            }
        }
    }
    assert(after.to_set() =~= before.to_set().insert(name@)) by {
        assert forall|x: Seq<char>| after.to_set().contains(x) <==> before.to_set().insert(name@).contains(x) by {
            if after.contains(x) {
                let k = choose|k: int| 0 <= k < after.len() && after[k] == x;
                if k < np {
                    assert(before[k] == x);
                } else if k > np {
                    assert(before[k - 1] == x);
                }
            }
            if before.contains(x) {
                let k = choose|k: int| 0 <= k < before.len() && before[k] == x;
                if k < np {
                    assert(after[k] == x);
                } else {
                    assert(after[k + 1] == x);
                }
            }
            if x == name@ {
                assert(after[np] == x);
            }
        }
    }
}

} // verus!
