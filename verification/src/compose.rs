//! Composing a range with a range that is relative to it.
use crate::element::clones_exactly;
use std::ops::Add;
use std::ops::Range;
use vstd::pervasive::runtime_assert;
use vstd::prelude::*;
use vstd::std_specs::cmp::PartialOrdIs;
use vstd::std_specs::cmp::PartialOrdSpec;
use vstd::std_specs::ops::AddSpec;

verus! {

/// A range that an `Rhs`, counted from the start of the range, can be composed with.
pub trait RangeCompose<Rhs> {
    /// What the composition is.
    type Output;

    /// Whether `rhs`, counted from the start of `self`, stays inside `self`.
    spec fn can_compose(&self, rhs: &Rhs) -> bool;

    /// The range that selects what `self` and then `rhs` select.
    spec fn compose_spec(&self, rhs: &Rhs) -> Self::Output;

    /// Turns `rhs`, which counts from the start of `self`, into a range that counts from where
    /// `self` counts from.
    fn compose(&self, rhs: &Rhs) -> (composed: Self::Output)
        requires
            self.can_compose(rhs),
        ensures
            composed == self.compose_spec(rhs),
    ;
}

impl<T> RangeCompose<Range<T>> for Range<T> where T: PartialOrd + Add<T, Output = T> + Clone {
    type Output = Range<T>;

    /// Both sums `self.start + rhs.start` and `self.start + rhs.end` can be formed, the first is
    /// not below `self.start` and the second not above `self.end`, by the `+` and the
    /// comparisons of `T`, which have to run as specified. The bounds that are added are cloned
    /// first, so their clones have to be exact.
    open spec fn can_compose(&self, rhs: &Range<T>) -> bool {
        &&& T::obeys_partial_cmp_spec()
        &&& T::obeys_add_spec()
        &&& clones_exactly(self.start)
        &&& clones_exactly(rhs.start)
        &&& clones_exactly(rhs.end)
        &&& self.start.add_req(rhs.start)
        &&& self.start.add_req(rhs.end)
        &&& self.start.is_le(&self.start.add_spec(rhs.start))
        &&& self.start.add_spec(rhs.end).is_le(&self.end)
    }

    /// The range `(self.start + rhs.start)..(self.start + rhs.end)`.
    open spec fn compose_spec(&self, rhs: &Range<T>) -> Range<T> {
        self.start.add_spec(rhs.start)..self.start.add_spec(rhs.end)
    }

    /// Both bounds of `rhs` are moved up by the start of `self`, and the result lies inside
    /// `self`.
    fn compose(&self, rhs: &Range<T>) -> (composed: Range<T>)
        ensures
            composed.start == self.start.add_spec(rhs.start),
            composed.end == self.start.add_spec(rhs.end),
            self.start.is_le(&composed.start),
            composed.end.is_le(&self.end),
    {
        let start = self.start.clone() + rhs.start.clone();
        runtime_assert(self.start <= start);
        let end = self.start.clone() + rhs.end.clone();
        runtime_assert(end <= self.end);
        start..end
    }
}

} // verus!
