//! Comparison of strings by their first differing character.
use vstd::prelude::*;

verus! {

broadcast use vstd::string::group_string_axioms;

/// The characters of `s`, in order.
pub fn chars_of(s: &str) -> (v: Vec<char>)
    ensures
        v@ == s@,
{
    let mut v: Vec<char> = Vec::new();
    for c in it: s.chars()
        invariant
            v@ == it.seq().take(it.index() as int),
    {
        v.push(c);
    }
    v
}

/// `x` is greater than `y` at their first differing position, which lies
/// within both strings.
pub open spec fn greater_at_first_difference(x: Seq<char>, y: Seq<char>) -> bool {
    exists|k: int|
        0 <= k < x.len() && k < y.len() && (#[trigger] x[k]) > y[k] && forall|j: int|
            0 <= j < k ==> x[j] == y[j]
}

/// `y` is a proper prefix of `x`.
pub open spec fn proper_prefix(y: Seq<char>, x: Seq<char>) -> bool {
    y.len() < x.len() && y == x.take(y.len() as int)
}

/// `x` comes after `y` in the lexicographic order of characters: `x` is
/// greater at the first difference, or `y` is a proper prefix of `x` (so the
/// empty string comes before every other string).
pub open spec fn lex_greater(x: Seq<char>, y: Seq<char>) -> bool {
    greater_at_first_difference(x, y) || proper_prefix(y, x)
}

/// Whether `x` comes after `y`: compares the characters position by
/// position and decides at the first difference; when one string runs out
/// first, the longer one comes after (the empty string is the smallest).
pub fn compare_string(x: &str, y: &str) -> (r: bool)
    ensures
        r == lex_greater(x@, y@),
{
    let x_str = chars_of(x);
    let y_str = chars_of(y);
    let mut i: usize = 0;
    loop
        invariant
            x_str@ == x@,
            y_str@ == y@,
            i <= x_str.len(),
            i <= y_str.len(),
            forall|j: int| 0 <= j < i ==> x@[j] == y@[j],
        decreases x_str.len() - i,
    {
        if i >= x_str.len() || i >= y_str.len() {
            assert forall|k: int|
                0 <= k < x@.len() && k < y@.len() && (#[trigger] x@[k]) > y@[k] implies !(forall|j: int|
                0 <= j < k ==> x@[j] == y@[j]) by {
                assert(k < i);
                assert(x@[k] == y@[k]);
            }
            if i < x_str.len() {
                assert(y@ =~= x@.take(y@.len() as int));
                return true;
            } else {
                return false;
            }
        }
        if x_str[i] == y_str[i] {
            i += 1;
            continue;
        }
        assert(!proper_prefix(y@, x@)) by {
            if proper_prefix(y@, x@) {
                assert(x@.take(y@.len() as int)[i as int] == x@[i as int]);
            }
        }
        if x_str[i] > y_str[i] {
            assert(x@[i as int] > y@[i as int]);
            return true;
        } else {
            assert forall|k: int|
                0 <= k < x@.len() && k < y@.len() && (#[trigger] x@[k]) > y@[k] implies !(forall|j: int|
                0 <= j < k ==> x@[j] == y@[j]) by {
                if k < i {
                    assert(x@[k] == y@[k]);
                } else if k > i {
                    assert(!(x@[i as int] == y@[i as int]));
                }
            }
            return false;
        }
    }
}

/// The empty string comes after no string, every non-empty string comes
/// after the empty string, and no string comes after itself.
pub proof fn law_empty_smallest_and_irreflexive(x: Seq<char>)
    ensures
        !lex_greater(Seq::<char>::empty(), x),
        x.len() > 0 ==> lex_greater(x, Seq::<char>::empty()),
        !lex_greater(x, x),
{
    if x.len() > 0 {
        assert(Seq::<char>::empty() =~= x.take(0));
    }
}

/// Where two strings differ before position `m`, there is a first position
/// at which they differ.
proof fn lemma_first_difference(x: Seq<char>, y: Seq<char>, i: int, m: int)
    requires
        0 <= i <= m <= x.len(),
        m <= y.len(),
        forall|j: int| 0 <= j < i ==> x[j] == y[j],
        exists|j: int| i <= j < m && x[j] != y[j],
    ensures
        exists|d: int| 0 <= d < m && x[d] != y[d] && forall|j: int| 0 <= j < d ==> x[j] == y[j],
    decreases m - i,
{
    if x[i] != y[i] {
        assert(0 <= i < m && x[i] != y[i] && forall|j: int| 0 <= j < i ==> x[j] == y[j]);
    } else {
        lemma_first_difference(x, y, i + 1, m);
    }
}

/// Of two different strings exactly one comes after the other.
pub proof fn law_total_and_asymmetric(x: Seq<char>, y: Seq<char>)
    ensures
        x != y ==> (lex_greater(x, y) != lex_greater(y, x)),
        x == y ==> !lex_greater(x, y),
{
    if greater_at_first_difference(x, y) && greater_at_first_difference(y, x) {
        let k = choose|k: int|
            0 <= k < x.len() && k < y.len() && (#[trigger] x[k]) > y[k] && forall|j: int|
                0 <= j < k ==> x[j] == y[j];
        let l = choose|l: int|
            0 <= l < y.len() && l < x.len() && (#[trigger] y[l]) > x[l] && forall|j: int|
                0 <= j < l ==> y[j] == x[j];
        if k < l {
            assert(y[k] == x[k]);
        } else if l < k {
            assert(x[l] == y[l]);
        }
    }
    if greater_at_first_difference(x, y) && proper_prefix(x, y) {
        let k = choose|k: int|
            0 <= k < x.len() && k < y.len() && (#[trigger] x[k]) > y[k] && forall|j: int|
                0 <= j < k ==> x[j] == y[j];
        assert(y.take(x.len() as int)[k] == y[k]);
    }
    if greater_at_first_difference(y, x) && proper_prefix(y, x) {
        let k = choose|k: int|
            0 <= k < y.len() && k < x.len() && (#[trigger] y[k]) > x[k] && forall|j: int|
                0 <= j < k ==> y[j] == x[j];
        assert(x.take(y.len() as int)[k] == x[k]);
    }
    if x != y && !lex_greater(x, y) && !lex_greater(y, x) {
        // Find the first difference, or the end of the shorter string.
        let m = if x.len() < y.len() { x.len() as int } else { y.len() as int };
        if forall|j: int| 0 <= j < m ==> x[j] == y[j] {
            if x.len() < y.len() {
                assert(x =~= y.take(x.len() as int));
            } else if y.len() < x.len() {
                assert(y =~= x.take(y.len() as int));
            } else {
                assert(x =~= y);
            }
        } else {
            lemma_first_difference(x, y, 0, m);
            let d = choose|d: int|
                0 <= d < m && x[d] != y[d] && forall|j: int| 0 <= j < d ==> x[j] == y[j];
            if x[d] > y[d] {
                assert(greater_at_first_difference(x, y));
            } else {
                assert(greater_at_first_difference(y, x));
            }
        }
    }
}

} // verus!
