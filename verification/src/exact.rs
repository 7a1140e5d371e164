//! Exact equality of plain values.

use vstd::prelude::*;

verus! {

/// A plain value that can be compared exactly: two values are the same when
/// every part of them is.
pub trait SameValue: Sized {
    fn same(&self, other: &Self) -> (r: bool)
        ensures
            r == (*self == *other),
    ;
}

impl SameValue for u8 {
    fn same(&self, other: &Self) -> (r: bool) {
        *self == *other
    }
}

/// Compares two arrays element by element.
pub fn same_array<T: SameValue, const N: usize>(a: &[T; N], b: &[T; N]) -> (r: bool)
    ensures
        r == (*a == *b),
{
    let mut i: usize = 0;
    while i < N
        invariant
            i <= N,
            forall|j: int| 0 <= j < i ==> a[j] == b[j],
        decreases N - i,
    {
        if !a[i].same(&b[i]) {
            assert(a[i as int] != b[i as int]);
            return false;
        }
        i = i + 1;
    }
    assert(*a =~= *b);
    true
}

/// Compares two optional values.
pub fn same_option<T: SameValue>(a: &Option<T>, b: &Option<T>) -> (r: bool)
    ensures
        r == (*a == *b),
{
    match (a, b) {
        (None, None) => true,
        (Some(x), Some(y)) => x.same(y),
        _ => false,
    }
}

} // verus!
