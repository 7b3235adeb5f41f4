//! Lists of entries keyed by text, where no key occurs twice.
//!
//! A list of `(String, V)` pairs stands for a finite map from the key text to
//! the entry's value; the spec functions here give that reading and the
//! lemmas say how the usual list edits change it.
use vstd::prelude::*;

verus! {

/// No two entries of `s` carry the same key text.
pub open spec fn keys_distinct<V>(s: Seq<(String, V)>) -> bool {
    forall|i: int, j: int|
        0 <= i < s.len() && 0 <= j < s.len() && i != j ==> #[trigger] s[i].0@ != #[trigger] s[j].0@
}

/// Some entry of `s` carries the key text `k`.
pub open spec fn has_key<V>(s: Seq<(String, V)>, k: Seq<char>) -> bool {
    exists|i: int| 0 <= i < s.len() && #[trigger] s[i].0@ == k
}

/// The position of an entry with key text `k` (meaningful when `has_key(s, k)`).
pub open spec fn key_index<V>(s: Seq<(String, V)>, k: Seq<char>) -> int {
    choose|i: int| 0 <= i < s.len() && #[trigger] s[i].0@ == k
}

/// The map from key text to value that a list of entries stands for.
pub open spec fn key_map<V>(s: Seq<(String, V)>) -> Map<Seq<char>, V> {
    Map::new(|k: Seq<char>| has_key(s, k), |k: Seq<char>| s[key_index(s, k)].1)
}

/// With distinct keys, the entry at `i` is the one that `key_index` picks for its key.
pub proof fn lemma_key_index_unique<V>(s: Seq<(String, V)>, i: int)
    requires
        keys_distinct(s),
        0 <= i < s.len(),
    ensures
        has_key(s, s[i].0@),
        key_index(s, s[i].0@) == i,
{
    assert(has_key(s, s[i].0@));
    let j = key_index(s, s[i].0@);
    assert(s[j].0@ == s[i].0@);
}

/// Finds the position of the entry whose key text equals `k`.
pub fn find_key<V>(s: &Vec<(String, V)>, k: &String) -> (r: Option<usize>)
    ensures
        match r {
            Some(i) => i < s@.len() && s@[i as int].0@ == k@,
            None => !has_key(s@, k@),
        },
{
    let mut i: usize = 0;
    while i < s.len()
        invariant
            i <= s@.len(),
            forall|j: int| 0 <= j < i ==> #[trigger] s@[j].0@ != k@,
        decreases s@.len() - i,
    {
        if s[i].0 == *k {
            return Some(i);
        }
        i += 1;
    }
    None
}

/// Two lists whose key at every position is the same have the same keys.
proof fn lemma_same_keys<V>(s: Seq<(String, V)>, t: Seq<(String, V)>)
    requires
        s.len() == t.len(),
        forall|a: int| 0 <= a < s.len() ==> #[trigger] s[a].0@ == t[a].0@,
    ensures
        keys_distinct(s) ==> keys_distinct(t),
        forall|k: Seq<char>| has_key(t, k) <==> has_key(s, k),
{
    assert forall|a: int, b: int|
        keys_distinct(s) && 0 <= a < t.len() && 0 <= b < t.len() && a != b implies #[trigger] t[a].0@
        != #[trigger] t[b].0@ by {
        assert(s[a].0@ != s[b].0@);
    }
    assert forall|k: Seq<char>| has_key(t, k) <==> has_key(s, k) by {
        if has_key(t, k) {
            let j = choose|j: int| 0 <= j < t.len() && #[trigger] t[j].0@ == k;
            assert(s[j].0@ == k);
        }
        if has_key(s, k) {
            let j = choose|j: int| 0 <= j < s.len() && #[trigger] s[j].0@ == k;
            assert(t[j].0@ == k);
        }
    }
}

/// Replacing the entry at `i` by one with the same key changes the value at that key only.
pub proof fn lemma_key_map_update<V>(s: Seq<(String, V)>, i: int, e: (String, V))
    requires
        keys_distinct(s),
        0 <= i < s.len(),
        e.0@ == s[i].0@,
    ensures
        keys_distinct(s.update(i, e)),
        key_map(s.update(i, e)) == key_map(s).insert(e.0@, e.1),
{
    let t = s.update(i, e);
    lemma_same_keys(s, t);
    lemma_key_index_unique(s, i);
    lemma_key_index_unique(t, i);
    assert forall|k: Seq<char>| #[trigger] key_map(t).contains_key(k) implies key_map(t)[k]
        == key_map(s).insert(e.0@, e.1)[k] by {
        let jt = key_index(t, k);
        assert(t[jt].0@ == k);
        if k != e.0@ {
            assert(jt != i);
            assert(s[jt].0@ == k);
            lemma_key_index_unique(s, jt);
        }
    }
    assert(key_map(t) =~= key_map(s).insert(e.0@, e.1));
}

/// Appending an entry with a new key adds that key to the map.
pub proof fn lemma_key_map_push<V>(s: Seq<(String, V)>, e: (String, V))
    requires
        keys_distinct(s),
        !has_key(s, e.0@),
    ensures
        keys_distinct(s.push(e)),
        key_map(s.push(e)) == key_map(s).insert(e.0@, e.1),
{
    let t = s.push(e);
    let n = s.len() as int;
    assert forall|a: int, b: int| 0 <= a < t.len() && 0 <= b < t.len() && a != b implies #[trigger] t[a].0@
        != #[trigger] t[b].0@ by {
        if a == n {
            assert(s[b].0@ == t[b].0@);
        } else if b == n {
            assert(s[a].0@ == t[a].0@);
        } else {
            assert(s[a].0@ == t[a].0@);
            assert(s[b].0@ == t[b].0@);
        }
    }
    assert forall|k: Seq<char>| has_key(t, k) <==> (has_key(s, k) || k == e.0@) by {
        if has_key(t, k) {
            let j = choose|j: int| 0 <= j < t.len() && #[trigger] t[j].0@ == k;
            if j < n {
                assert(s[j].0@ == k);
            }
        }
        if has_key(s, k) {
            let j = choose|j: int| 0 <= j < s.len() && #[trigger] s[j].0@ == k;
            assert(t[j].0@ == k);
        }
        if k == e.0@ {
            assert(t[n].0@ == k);
        }
    }
    lemma_key_index_unique(t, n);
    assert forall|k: Seq<char>| #[trigger] key_map(t).contains_key(k) implies key_map(t)[k]
        == key_map(s).insert(e.0@, e.1)[k] by {
        if k != e.0@ {
            let js = key_index(s, k);
            assert(s[js].0@ == k);
            assert(t[js].0@ == k);
            lemma_key_index_unique(t, js);
        }
    }
    assert(key_map(t) =~= key_map(s).insert(e.0@, e.1));
}

/// Removing the entry at `i` removes its key from the map.
pub proof fn lemma_key_map_remove<V>(s: Seq<(String, V)>, i: int)
    requires
        keys_distinct(s),
        0 <= i < s.len(),
    ensures
        keys_distinct(s.remove(i)),
        key_map(s.remove(i)) == key_map(s).remove(s[i].0@),
{
    let t = s.remove(i);
    let gone = s[i].0@;
    assert forall|a: int| 0 <= a < t.len() implies #[trigger] t[a] == s[if a < i { a } else { a + 1 }] by {}
    assert forall|a: int, b: int| 0 <= a < t.len() && 0 <= b < t.len() && a != b implies #[trigger] t[a].0@
        != #[trigger] t[b].0@ by {
        let sa = if a < i { a } else { a + 1 };
        let sb = if b < i { b } else { b + 1 };
        assert(t[a] == s[sa]);
        assert(t[b] == s[sb]);
    }
    assert forall|k: Seq<char>| has_key(t, k) <==> (has_key(s, k) && k != gone) by {
        if has_key(t, k) {
            let j = choose|j: int| 0 <= j < t.len() && #[trigger] t[j].0@ == k;
            let sj = if j < i { j } else { j + 1 };
            assert(t[j] == s[sj]);
            assert(s[sj].0@ == k);
        }
        if has_key(s, k) && k != gone {
            let j = choose|j: int| 0 <= j < s.len() && #[trigger] s[j].0@ == k;
            assert(j != i);
            let tj = if j < i { j } else { j - 1 };
            assert(t[tj] == s[j]);
            assert(t[tj].0@ == k);
        }
    }
    assert forall|k: Seq<char>| #[trigger] key_map(t).contains_key(k) implies key_map(t)[k]
        == key_map(s).remove(gone)[k] by {
        let jt = key_index(t, k);
        assert(t[jt].0@ == k);
        let sj = if jt < i { jt } else { jt + 1 };
        assert(t[jt] == s[sj]);
        lemma_key_index_unique(s, sj);
    }
    assert(key_map(t) =~= key_map(s).remove(gone));
}

} // verus!
