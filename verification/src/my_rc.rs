//! A value with a reference count, and a shared pointer with a strong count.
use vstd::prelude::*;

verus! {

/// The count after one more reference.
pub open spec fn inc_spec(c: int) -> int {
    c + 1
}

/// The count after one reference fewer.
pub open spec fn dec_spec(c: int) -> int {
    c - 1
}

/// Dropping a reference undoes adding one, and the other way round.
pub proof fn law_dec_undoes_inc(c: int)
    ensures
        dec_spec(inc_spec(c)) == c,
        inc_spec(dec_spec(c)) == c,
{
}

/// A value together with a count of the references to it.
pub struct Rc<T> {
    value: T,
    rcount: i32,
}

impl<T> Rc<T> {
    /// The value held.
    pub closed spec fn value(&self) -> T {
        self.value
    }

    /// The current count.
    pub closed spec fn count(&self) -> int {
        self.rcount as int
    }

    /// Holds `value` with a count of one.
    pub fn new(value: T) -> (r: Rc<T>)
        ensures
            r.value() == value,
            r.count() == 1,
    {
        Rc { value, rcount: 1 }
    }

    /// Adds one to the count and returns the new count.
    pub fn inc_count(&mut self) -> (r: i32)
        requires
            old(self).count() < i32::MAX,
        ensures
            final(self).count() == inc_spec(old(self).count()),
            final(self).value() == old(self).value(),
            r == final(self).count(),
    {
        self.rcount += 1;
        self.rcount
    }

    /// Takes one from the count and returns the new count.
    pub fn dec_count(&mut self) -> (r: i32)
        requires
            old(self).count() > i32::MIN,
        ensures
            final(self).count() == dec_spec(old(self).count()),
            final(self).value() == old(self).value(),
            r == final(self).count(),
    {
        self.rcount -= 1;
        self.rcount
    }
}

/// Calls `std::rc::Rc::strong_count`, the number of `Rc` pointers to the
/// allocation; the pointer passed in is one of them, so it is at least one.
/// Which other pointers are alive is not visible here and is left unsaid.
#[verifier::external_body]
fn rc_strong_count<T>(rc: &std::rc::Rc<T>) -> (n: usize)
    ensures
        n >= 1,
{
    std::rc::Rc::strong_count(rc)
}

/// Calls `<std::rc::Rc<T> as Clone>::clone`, which makes another pointer to
/// the same allocation, so it points to the same value.
#[verifier::external_body]
fn rc_clone<T>(rc: &std::rc::Rc<T>) -> (r: std::rc::Rc<T>)
    ensures
        *r == **rc,
{
    rc.clone()
}

/// A pointer count as an `i32`: the count itself, or `i32::MAX` for a count
/// beyond it.
pub fn count_as_i32(c: usize) -> (n: i32)
    ensures
        n == (if c > i32::MAX {
            i32::MAX as int
        } else {
            c as int
        }),
{
    if c > 2147483647 {
        i32::MAX
    } else {
        c as i32
    }
}

/// A shared pointer: clones point to one value, and the value is freed when
/// the last of them goes away.
pub struct MyRc<T> {
    rct: std::rc::Rc<T>,
}

impl<T> MyRc<T> {
    /// The value pointed to.
    pub closed spec fn value(&self) -> T {
        *self.rct
    }

    /// A pointer to a new allocation holding `value`.
    pub fn new(value: T) -> (r: MyRc<T>)
        ensures
            r.value() == value,
    {
        MyRc { rct: std::rc::Rc::new(value) }
    }

    /// The number of pointers to this value that are alive (at least one;
    /// a count beyond `i32::MAX` reads as `i32::MAX`).
    pub fn strong_count(&self) -> (n: i32)
        ensures
            n >= 1,
    {
        count_as_i32(rc_strong_count(&self.rct))
    }
}

impl<T> Clone for MyRc<T> {
    /// Another pointer to the same value; the count grows by one.
    fn clone(&self) -> (r: Self)
        ensures
            r.value() == self.value(),
    {
        MyRc { rct: rc_clone(&self.rct) }
    }
}

impl<T> std::ops::Deref for MyRc<T> {
    type Target = T;

    fn deref(&self) -> (r: &T)
        ensures
            *r == self.value(),
    {
        &*self.rct
    }
}

} // verus!
