//! Collections of values keyed by strings, held as vectors of pairs whose keys are unique.
use vstd::prelude::*;
use crate::text::str_eq;

verus! {

/// No key occurs twice.
pub open spec fn unique_keys<V>(s: Seq<(String, V)>) -> bool {
    forall|i: int, j: int| 0 <= i < j < s.len() ==> #[trigger] s[i].0@ != #[trigger] s[j].0@
}

/// The keys, as character sequences.
pub open spec fn key_views<V>(s: Seq<(String, V)>) -> Seq<Seq<char>> {
    s.map_values(|e: (String, V)| e.0@)
}

/// The map that the pairs describe; a later pair overrides an earlier one with the same key.
pub open spec fn keyed_map<V>(s: Seq<(String, V)>) -> Map<Seq<char>, V>
    decreases s.len(),
{
    if s.len() == 0 {
        Map::empty()
    } else {
        keyed_map(s.drop_last()).insert(s.last().0@, s.last().1)
    }
}

/// Index of the pair with the given key, if any.
pub open spec fn key_index<V>(s: Seq<(String, V)>, k: Seq<char>) -> Option<int>
    decreases s.len(),
{
    if s.len() == 0 {
        None
    } else if s.last().0@ == k {
        Some(s.len() - 1)
    } else {
        key_index(s.drop_last(), k)
    }
}

pub proof fn lemma_key_index<V>(s: Seq<(String, V)>, k: Seq<char>)
    ensures
        match key_index(s, k) {
            Some(i) => 0 <= i < s.len() && s[i].0@ == k && keyed_map(s).contains_key(k)
                && keyed_map(s)[k] == s[i].1,
            None => !keyed_map(s).contains_key(k) && forall|j: int|
                0 <= j < s.len() ==> #[trigger] s[j].0@ != k,
        },
    decreases s.len(),
{
    if s.len() > 0 {
        lemma_key_index(s.drop_last(), k);
        if s.last().0@ != k {
            assert forall|j: int| 0 <= j < s.len() && key_index(s, k) is None implies #[trigger] s[j].0@ != k by {
                if j < s.len() - 1 {
                    assert(s.drop_last()[j] == s[j]);
                }
            }
        }
    }
}

pub proof fn lemma_keyed_map_update<V>(s: Seq<(String, V)>, i: int, v: V)
    requires
        unique_keys(s),
        0 <= i < s.len(),
    ensures
        keyed_map(s.update(i, (s[i].0, v))) == keyed_map(s).insert(s[i].0@, v),
        unique_keys(s.update(i, (s[i].0, v))),
    decreases s.len(),
{
    let t = s.update(i, (s[i].0, v));
    assert(unique_keys(t)) by {
        assert forall|a: int, b: int| 0 <= a < b < t.len() implies #[trigger] t[a].0@ != #[trigger] t[b].0@ by {
            assert(s[a].0@ != s[b].0@);
        }
    }
    if i == s.len() - 1 {
        assert(t.drop_last() =~= s.drop_last());
        assert(keyed_map(t) =~= keyed_map(s).insert(s[i].0@, v));
    } else {
        let d = s.drop_last();
        assert(unique_keys(d)) by {
            assert forall|a: int, b: int| 0 <= a < b < d.len() implies #[trigger] d[a].0@ != #[trigger] d[b].0@ by {
                assert(s[a].0@ != s[b].0@);
            }
        }
        lemma_keyed_map_update(d, i, v);
        assert(t.drop_last() =~= d.update(i, (d[i].0, v)));
        assert(s[i].0@ != s.last().0@);
        assert(keyed_map(t) =~= keyed_map(s).insert(s[i].0@, v));
    }
}

/// The entry with key `key`, if any.
pub fn keyed_get<'a, V>(v: &'a Vec<(String, V)>, key: &str) -> (r: Option<&'a V>)
    ensures
        match r {
            Some(x) => keyed_map(v@).contains_key(key@) && *x == keyed_map(v@)[key@],
            None => !keyed_map(v@).contains_key(key@),
        },
{
    let mut i = v.len();
    assert(v@.take(i as int) =~= v@);
    while i > 0
        invariant
            i <= v@.len(),
            key_index(v@, key@) == key_index(v@.take(i as int), key@),
        decreases i,
    {
        assert(v@.take(i as int).drop_last() =~= v@.take(i - 1));
        if str_eq(v[i - 1].0.as_str(), key) {
            proof {
                lemma_key_index(v@, key@);
            }
            return Some(&v[i - 1].1);
        }
        i = i - 1;
    }
    proof {
        lemma_key_index(v@, key@);
    }
    None
}

/// Sets the value of `key`: replaces the value of an existing pair with that key,
/// or adds a pair at the end.
pub fn keyed_insert<V>(v: &mut Vec<(String, V)>, key: String, value: V)
    requires
        unique_keys(old(v)@),
    ensures
        unique_keys(final(v)@),
        keyed_map(final(v)@) == keyed_map(old(v)@).insert(key@, value),
{
    let mut i = v.len();
    assert(v@.take(i as int) =~= v@);
    while i > 0
        invariant
            i <= v@.len(),
            v@ == old(v)@,
            unique_keys(old(v)@),
            key_index(v@, key@) == key_index(v@.take(i as int), key@),
        decreases i,
    {
        assert(v@.take(i as int).drop_last() =~= v@.take(i - 1));
        if str_eq(v[i - 1].0.as_str(), key.as_str()) {
            proof {
                lemma_key_index(v@, key@);
                lemma_keyed_map_update(v@, i - 1, value);
            }
            let ghost k0 = v@[i - 1].0;
            v.set(i - 1, (key, value));
            assert(keyed_map(v@) == keyed_map(old(v)@).insert(key@, value)) by {
                let s = old(v)@;
                let t = s.update(i - 1, (s[i - 1].0, value));
                assert(keyed_map(v@) =~= keyed_map(t)) by {
                    lemma_keyed_map_same_keys(v@, t);
                }
            }
            assert(unique_keys(v@)) by {
                let s = old(v)@;
                assert forall|a: int, b: int| 0 <= a < b < v@.len() implies #[trigger] v@[a].0@ != #[trigger] v@[b].0@ by {
                    assert(s[a].0@ != s[b].0@);
                }
            }
            return;
        }
        i = i - 1;
    }
    proof {
        lemma_key_index(v@, key@);
    }
    let ghost before = v@;
    v.push((key, value));
    assert(v@.drop_last() =~= before);
}

/// Two pair sequences whose keys have the same views and whose values agree describe the same map.
pub proof fn lemma_keyed_map_same_keys<V>(s: Seq<(String, V)>, t: Seq<(String, V)>)
    requires
        s.len() == t.len(),
        forall|i: int| 0 <= i < s.len() ==> #[trigger] s[i].0@ == t[i].0@ && s[i].1 == t[i].1,
    ensures
        keyed_map(s) == keyed_map(t),
    decreases s.len(),
{
    if s.len() > 0 {
        lemma_keyed_map_same_keys(s.drop_last(), t.drop_last());
        assert(s.last().0@ == t.last().0@);
    }
}

} // verus!
