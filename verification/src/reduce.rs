//! The change-detecting reducer, and the value equality it compares states by.

use vstd::prelude::*;

verus! {

/// Equality of two values by what they hold, not by where they live: the
/// values are the same exactly when their deep views are.
pub trait ValueEq: DeepView {
    fn value_eq(&self, other: &Self) -> (same: bool)
        ensures
            same == (self.deep_view() == other.deep_view()),
    ;
}

impl ValueEq for String {
    fn value_eq(&self, other: &Self) -> (same: bool) {
        *self == *other
    }
}

impl<T: ValueEq> ValueEq for Option<T> {
    fn value_eq(&self, other: &Self) -> (same: bool) {
        match (self, other) {
            (None, None) => true,
            (Some(a), Some(b)) => a.value_eq(b),
            _ => false,
        }
    }
}

impl<T: ValueEq> ValueEq for Vec<T> {
    /// Element by element, in order; vectors of different lengths differ.
    fn value_eq(&self, other: &Self) -> (same: bool) {
        if self.len() != other.len() {
            assert(self.deep_view().len() != other.deep_view().len());
            return false;
        }
        let mut i: usize = 0;
        while i < self.len()
            invariant
                i <= self.len(),
                self.len() == other.len(),
                forall|k: int| 0 <= k < i ==> self[k].deep_view() == other[k].deep_view(),
            decreases self.len() - i,
        {
            if !self[i].value_eq(&other[i]) {
                assert(self.deep_view()[i as int] != other.deep_view()[i as int]);
                return false;
            }
            i += 1;
        }
        assert(self.deep_view() =~= other.deep_view());
        true
    }
}

/// Applies `transform` to the previous state and the action, and reports
/// whether the state it gives differs in value from the previous one.
///
/// The comparison is always made, so a transformation that hands the previous
/// state back reports no change.
pub fn reduce<T: ValueEq, A, F: FnOnce(&T, A) -> T>(prev: &T, action: A, transform: F) -> (out: (
    T,
    bool,
))
    requires
        call_requires(transform, (prev, action)),
    ensures
        call_ensures(transform, (prev, action), out.0),
        out.1 == (prev.deep_view() != out.0.deep_view()),
{
    let next = transform(prev, action);
    let changed = !prev.value_eq(&next);
    (next, changed)
}

} // verus!
