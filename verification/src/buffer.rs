//! A buffer of values that can be summed.
use vstd::prelude::*;
use std::ops::Add;
use vstd::std_specs::ops::AddSpec;

verus! {

/// The left-to-right sum `s[0] + s[1] + ... + s[n-1]` by the `+` of `T`
/// (meaningful for a non-empty `s`).
pub open spec fn sum_spec<T: Add<Output = T>>(s: Seq<T>) -> T
    decreases s.len(),
{
    if s.len() <= 1 {
        s[0]
    } else {
        sum_spec(s.drop_last()).add_spec(s.last())
    }
}

/// Every addition of the left-to-right sum of `s` is allowed by `T`'s `+`
/// (for integers: none of them overflows).
pub open spec fn sum_defined<T: Add<Output = T>>(s: Seq<T>) -> bool {
    forall|k: int| 1 <= k < s.len() ==> #[trigger] sum_spec(s.take(k)).add_req(s[k])
}

/// `c` is, item by item, a clone of `s`.
pub open spec fn clones_of<T: Clone>(s: Seq<T>, c: Seq<T>) -> bool {
    c.len() == s.len() && forall|i: int| 0 <= i < s.len() ==> cloned(s[i], #[trigger] c[i])
}

/// A list of values of a type with `+`.
#[verifier::reject_recursive_types(T)]
pub struct Buffer<T: Add<Output = T> + Clone> {
    data: Vec<T>,
}

impl<T: Add<Output = T> + Clone> Buffer<T> {
    /// The values held.
    pub closed spec fn data(&self) -> Seq<T> {
        self.data@
    }

    /// A buffer holding `data`.
    pub fn new(data: Vec<T>) -> (b: Buffer<T>)
        ensures
            b.data() == data@,
    {
        Buffer { data }
    }

    /// The sum of the values from first to last, or `None` when the buffer
    /// is empty. The values are cloned before they are added, and the result
    /// is the left-to-right sum of those clones (of the values themselves,
    /// where a clone is a copy). The contract is stated for types whose `+`
    /// follows its spec, such as the integer types.
    pub fn sum(&self) -> (r: Option<T>)
        requires
            T::obeys_add_spec(),
            forall|c: Seq<T>| clones_of(self.data(), c) ==> #[trigger] sum_defined(c),
        ensures
            self.data().len() == 0 <==> r is None,
            r matches Some(v) ==> exists|c: Seq<T>|
                clones_of(self.data(), c) && #[trigger] sum_spec(c) == v,
    {
        if self.data.len() == 0 {
            None
        } else {
            let mut sum = self.data[0].clone();
            let ghost mut c: Seq<T> = seq![sum];
            let n = self.data.len();
            for i in 1..n
                invariant
                    n == self.data@.len(),
                    c.len() == i,
                    forall|j: int| 0 <= j < i ==> cloned(self.data@[j], #[trigger] c[j]),
                    T::obeys_add_spec(),
                    sum == sum_spec(c),
                    forall|c2: Seq<T>| clones_of(self.data(), c2) ==> #[trigger] sum_defined(c2),
            {
                let x = self.data[i].clone();
                proof {
                    let full = c.push(x) + self.data@.skip(i + 1);
                    assert forall|j: int| 0 <= j < self.data@.len() implies cloned(
                        self.data@[j],
                        #[trigger] full[j],
                    ) by {
                        if j > i {
                            assert(full[j] == self.data@[j]);
                        }
                    }
                    assert(clones_of(self.data(), full));
                    assert(sum_defined(full));
                    assert(full.take(i as int) =~= c);
                    assert(sum_spec(full.take(i as int)).add_req(full[i as int]));
                    assert(c.push(x).drop_last() =~= c);
                }
                sum = sum + x;
                proof {
                    c = c.push(x);
                }
            }
            assert(clones_of(self.data(), c));
            Some(sum)
        }
    }
}

} // verus!
