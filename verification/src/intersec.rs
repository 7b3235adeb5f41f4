//! Intersection of two lists of strings.
use vstd::prelude::*;

verus! {

/// The texts of a list of strings.
pub open spec fn texts(s: Seq<String>) -> Seq<Seq<char>> {
    s.map_values(|x: String| x@)
}

/// The texts of `b` that also occur in `a`, in the order (and with the
/// repetitions) of `b`.
pub open spec fn kept_in(b: Seq<Seq<char>>, a: Seq<Seq<char>>) -> Seq<Seq<char>>
    decreases b.len(),
{
    if b.len() == 0 {
        Seq::empty()
    } else {
        let rest = kept_in(b.drop_last(), a);
        if a.contains(b.last()) {
            rest.push(b.last())
        } else {
            rest
        }
    }
}

/// Whether some string of `a` has the text of `x`.
fn occurs_in(a: &Vec<String>, x: &String) -> (r: bool)
    ensures
        r == texts(a@).contains(x@),
{
    let mut j: usize = 0;
    while j < a.len()
        invariant
            j <= a@.len(),
            forall|k: int| 0 <= k < j ==> a@[k]@ != x@,
        decreases a@.len() - j,
    {
        if a[j] == *x {
            assert(texts(a@)[j as int] == x@);
            return true;
        }
        j += 1;
    }
    assert forall|k: int| 0 <= k < texts(a@).len() implies texts(a@)[k] != x@ by {
        assert(texts(a@)[k] == a@[k]@);
    }
    false
}

/// The strings of `b` that also occur in `a`, in the order of `b`; a string
/// that occurs several times in `b` is kept as often.
pub fn intersection(a: &Vec<String>, b: &Vec<String>) -> (ret: Vec<String>)
    ensures
        texts(ret@) == kept_in(texts(b@), texts(a@)),
{
    let mut ret: Vec<String> = Vec::new();
    let mut i: usize = 0;
    while i < b.len()
        invariant
            i <= b@.len(),
            texts(ret@) == kept_in(texts(b@).take(i as int), texts(a@)),
        decreases b@.len() - i,
    {
        let ghost before = ret@;
        let found = occurs_in(a, &b[i]);
        assert(texts(b@).take(i + 1).drop_last() =~= texts(b@).take(i as int));
        if found {
            ret.push(b[i].clone());
            assert(texts(ret@) =~= texts(before).push(b@[i as int]@));
        }
        i += 1;
    }
    assert(texts(b@).take(b@.len() as int) =~= texts(b@));
    ret
}

/// A text is kept exactly when it occurs in both lists.
pub proof fn law_kept_in_is_common(b: Seq<Seq<char>>, a: Seq<Seq<char>>, x: Seq<char>)
    ensures
        kept_in(b, a).contains(x) <==> b.contains(x) && a.contains(x),
    decreases b.len(),
{
    if b.len() > 0 {
        let rest = kept_in(b.drop_last(), a);
        law_kept_in_is_common(b.drop_last(), a, x);
        assert(b =~= b.drop_last().push(b.last()));
        if b.drop_last().contains(x) {
            let i = choose|i: int| 0 <= i < b.drop_last().len() && b.drop_last()[i] == x;
            assert(b[i] == x);
        }
        if b.contains(x) && x != b.last() {
            let i = choose|i: int| 0 <= i < b.len() && b[i] == x;
            assert(i != b.len() - 1);
            assert(b.drop_last()[i] == x);
        }
        if a.contains(b.last()) {
            if rest.push(b.last()).contains(x) && x != b.last() {
                let i = choose|i: int| 0 <= i < rest.push(b.last()).len() && rest.push(b.last())[i] == x;
                assert(rest[i] == x);
            }
            if rest.contains(x) {
                let i = choose|i: int| 0 <= i < rest.len() && rest[i] == x;
                assert(rest.push(b.last())[i] == x);
            }
            assert(rest.push(b.last())[rest.len() as int] == b.last());
        }
        if x == b.last() {
            assert(b[b.len() - 1] == x);
        }
    }
}

} // verus!
