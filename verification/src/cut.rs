//! Cutting a range around a part of it.
use crate::element::clones_exactly;
use std::ops::Range;
use vstd::pervasive::runtime_assert;
use vstd::prelude::*;
use vstd::std_specs::cmp::PartialOrdIs;
use vstd::std_specs::cmp::PartialOrdSpec;

verus! {

/// A range that can tell whether a bound comes no later than its end.
trait RangeContainsExt<T> {
    /// Whether `index` is not past the end of `self`: it is the end, or comes before it.
    fn contains_or_ends_at(&self, index: &T) -> bool;
}

impl<T> RangeContainsExt<T> for Range<T> where T: PartialOrd {
    /// The answer is that of `index <= self.end` wherever `T` compares as specified.
    fn contains_or_ends_at(&self, index: &T) -> (within: bool)
        ensures
            T::obeys_partial_cmp_spec() ==> within == index.is_le(&self.end),
    {
        index <= &self.end
    }
}

/// A range that can be cut around a `Cut` lying inside it.
pub trait RangeCut<Cut> {
    /// Whether `self` may be cut around `middle`.
    spec fn can_cut(&self, middle: &Cut) -> bool;

    /// What is left of `self` before `middle` and after it.
    spec fn cut_spec(self, middle: &Cut) -> (Self, Self) where Self: Sized;

    /// Splits `self` into the part before `middle` starts and the part after `middle` ends.
    fn cut(self, middle: &Cut) -> (parts: (Self, Self)) where Self: Sized
        requires
            self.can_cut(middle),
        ensures
            parts == self.cut_spec(middle),
    ;
}

impl<T> RangeCut<Range<T>> for Range<T> where T: PartialOrd + Clone {
    /// `middle` is not empty, starts inside `self` and ends inside `self` or where `self` ends:
    /// `self.start <= middle.start < self.end`, `middle.end <= self.end` and
    /// `middle.start < middle.end`, by the comparisons of `T`, which have to run as specified.
    /// The bounds of `middle` are cloned, so their clones have to be exact.
    open spec fn can_cut(&self, middle: &Range<T>) -> bool {
        &&& T::obeys_partial_cmp_spec()
        &&& clones_exactly(middle.start)
        &&& clones_exactly(middle.end)
        &&& self.start.is_le(&middle.start)
        &&& middle.start.is_lt(&self.end)
        &&& middle.end.is_le(&self.end)
        &&& middle.start.is_lt(&middle.end)
    }

    /// The pair `(self.start..middle.start, middle.end..self.end)`.
    open spec fn cut_spec(self, middle: &Range<T>) -> (Range<T>, Range<T>) {
        (self.start..middle.start, middle.end..self.end)
    }

    /// The first part runs from the start of `self` up to `middle`, the second from the end of
    /// `middle` to the end of `self`: the two border on `middle` and between them leave it out.
    fn cut(self, middle: &Range<T>) -> (parts: (Range<T>, Range<T>))
        ensures
            parts.0.start == self.start,
            parts.0.end == middle.start,
            parts.1.start == middle.end,
            parts.1.end == self.end,
    {
        runtime_assert(self.contains(&middle.start));
        runtime_assert(self.contains_or_ends_at(&middle.end));
        runtime_assert(middle.start < middle.end);
        runtime_assert(self.start <= middle.start);
        (self.start..middle.start.clone(), middle.end.clone()..self.end)
    }
}

} // verus!
