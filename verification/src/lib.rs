//! Arithmetic on half-open ranges.
//!
//! A range `start..end` stands for the positions `start <= x < end` of some larger sequence, a
//! buffer of bytes for one. [`RangeExt`] joins two ranges that touch, takes a prefix or a suffix
//! off a range, cuts a range around a part of it, and turns a range that is relative to another
//! into an absolute one.
//!
//! What an operation asks of its arguments is its `requires`, and Verus refuses a call that does
//! not meet it. Each operation also tests it at run time before it builds its result, and stops
//! the program if the test fails. For a caller that Verus has seen the tests are proved never to
//! fail; they are there for callers that it has not seen.
use crate::compose::RangeCompose;
use crate::cut::RangeCut;
use std::ops::Range;
use vstd::pervasive::runtime_assert;
use vstd::prelude::*;
use vstd::std_specs::cmp::PartialEqSpec;
use vstd::std_specs::cmp::PartialOrdIs;
use vstd::std_specs::cmp::PartialOrdSpec;

pub mod compose;
pub mod cut;
pub mod element;
pub mod laws;
pub mod positions;

verus! {

/// The operations on ranges.
///
/// Each operation has a predicate that says what it asks of its arguments and a function that
/// says what it gives; for `cut` and `compose` these are the ones of [`RangeCut`] and
/// [`RangeCompose`], to which those two methods hand over.
pub trait RangeExt {
    /// Whether `after` starts where `self` ends.
    spec fn can_concat(&self, after: &Self) -> bool;

    /// The range from the start of `self` to the end of `after`.
    spec fn concat_spec(self, after: Self) -> Self where Self: Sized;

    /// Joins `self` and `after`, which starts where `self` ends, into one range.
    fn concat(self, after: Self) -> (joined: Self) where Self: Sized
        requires
            self.can_concat(&after),
        ensures
            joined == self.concat_spec(after),
    ;

    /// Whether `prefix` starts where `self` starts and ends inside `self`.
    spec fn can_remove_prefix(&self, prefix: &Self) -> bool;

    /// The range from the end of `prefix` to the end of `self`.
    spec fn remove_prefix_spec(self, prefix: Self) -> Self where Self: Sized;

    /// Takes `prefix` off the front of `self`.
    fn remove_prefix(self, prefix: Self) -> (rest: Self) where Self: Sized
        requires
            self.can_remove_prefix(&prefix),
        ensures
            rest == self.remove_prefix_spec(prefix),
    ;

    /// Whether `suffix` starts inside `self` and ends where `self` ends.
    spec fn can_remove_suffix(&self, suffix: &Self) -> bool;

    /// The range from the start of `self` to the start of `suffix`.
    spec fn remove_suffix_spec(self, suffix: Self) -> Self where Self: Sized;

    /// Takes `suffix` off the back of `self`.
    fn remove_suffix(self, suffix: Self) -> (rest: Self) where Self: Sized
        requires
            self.can_remove_suffix(&suffix),
        ensures
            rest == self.remove_suffix_spec(suffix),
    ;

    /// Splits `self` into the part before `middle` starts and the part after `middle` ends.
    fn cut<C>(self, middle: &C) -> (Self, Self) where Self: Sized, Self: RangeCut<C>
        requires
            self.can_cut(middle),
        returns
            self.cut_spec(middle),
    {
        RangeCut::cut(self, middle)
    }

    /// The range that selects at once what `self` and then `rhs` select one after the other.
    fn compose<Rhs, Output>(&self, rhs: &Rhs) -> Output where
        Self: RangeCompose<Rhs, Output = Output>,

        requires
            self.can_compose(rhs),
        returns
            self.compose_spec(rhs),
    {
        RangeCompose::compose(self, rhs)
    }
}

impl<T> RangeExt for Range<T> where T: PartialOrd + PartialEq {
    /// `self.end == after.start`: no gap and no overlap. The `==` is that of `T`, which has to
    /// run as specified.
    open spec fn can_concat(&self, after: &Self) -> bool {
        &&& T::obeys_eq_spec()
        &&& self.end.eq_spec(&after.start)
    }

    /// The range `self.start..after.end`.
    open spec fn concat_spec(self, after: Self) -> Self {
        self.start..after.end
    }

    /// The join starts where `self` starts and ends where `after` ends.
    fn concat(self, after: Self) -> (joined: Self)
        ensures
            joined.start == self.start,
            joined.end == after.end,
    {
        runtime_assert(self.end == after.start);
        self.start..after.end
    }

    /// `prefix.start == self.start` and `prefix.end <= self.end`, by the comparisons of `T`,
    /// which have to run as specified.
    open spec fn can_remove_prefix(&self, prefix: &Self) -> bool {
        &&& T::obeys_eq_spec()
        &&& T::obeys_partial_cmp_spec()
        &&& prefix.start.eq_spec(&self.start)
        &&& prefix.end.is_le(&self.end)
    }

    /// The range `prefix.end..self.end`.
    open spec fn remove_prefix_spec(self, prefix: Self) -> Self {
        prefix.end..self.end
    }

    /// What is left starts where `prefix` ends and ends where `self` ends.
    fn remove_prefix(self, prefix: Self) -> (rest: Self)
        ensures
            rest.start == prefix.end,
            rest.end == self.end,
    {
        runtime_assert(prefix.start == self.start);
        runtime_assert(prefix.end <= self.end);
        prefix.end..self.end
    }

    /// `self.start <= suffix.start` and `self.end == suffix.end`, by the comparisons of `T`,
    /// which have to run as specified.
    open spec fn can_remove_suffix(&self, suffix: &Self) -> bool {
        &&& T::obeys_eq_spec()
        &&& T::obeys_partial_cmp_spec()
        &&& self.start.is_le(&suffix.start)
        &&& self.end.eq_spec(&suffix.end)
    }

    /// The range `self.start..suffix.start`.
    open spec fn remove_suffix_spec(self, suffix: Self) -> Self {
        self.start..suffix.start
    }

    /// What is left starts where `self` starts and ends where `suffix` starts.
    fn remove_suffix(self, suffix: Self) -> (rest: Self)
        ensures
            rest.start == self.start,
            rest.end == suffix.start,
    {
        runtime_assert(self.start <= suffix.start);
        runtime_assert(self.end == suffix.end);
        self.start..suffix.start
    }
}

/// The sum of two positions, which must itself be a `usize`.
pub fn add(left: usize, right: usize) -> (sum: usize)
    requires
        left + right <= usize::MAX,
    ensures
        sum == left + right,
{
    left + right
}

} // verus!
