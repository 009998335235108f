//! Ranges of positions in a sequence.
//!
//! Here the bounds are `usize`: what the operations ask becomes plain comparisons of numbers,
//! and what they give can be said of the part of a sequence that a range selects.
use crate::compose::RangeCompose;
use crate::cut::RangeCut;
use crate::RangeExt;
use std::ops::Range;
use vstd::prelude::*;

verus! {

/// The part of `s` at the positions of `r`.
pub open spec fn slice_of<A>(s: Seq<A>, r: Range<usize>) -> Seq<A> {
    s.subrange(r.start as int, r.end as int)
}

/// What each operation asks of two ranges of positions, in numbers.
///
/// A join asks that the second range starts where the first ends. A prefix starts where the
/// range starts and ends inside it; a suffix starts inside it and ends where it ends. A cut asks
/// for a middle that is not empty, starts inside the range and ends no later than it. A
/// composition asks that the relative range, moved by the start of the outer one, ends inside
/// the outer one, and that its moved start is still a `usize`.
pub proof fn lemma_preconditions_in_numbers(r: Range<usize>, other: Range<usize>)
    ensures
        r.can_concat(&other) <==> r.end == other.start,
        r.can_remove_prefix(&other) <==> other.start == r.start && other.end <= r.end,
        r.can_remove_suffix(&other) <==> r.start <= other.start && r.end == other.end,
        r.can_cut(&other) <==> r.start <= other.start < r.end && other.end <= r.end && other.start
            < other.end,
        r.can_compose(&other) <==> r.start + other.start <= usize::MAX && r.start + other.end
            <= r.end,
{
}

/// A composition lies inside the outer range, and is as long as the relative range.
pub proof fn lemma_compose_stays_inside(outer: Range<usize>, inner: Range<usize>)
    requires
        outer.can_compose(&inner),
    ensures
        outer.start <= outer.compose_spec(&inner).start,
        outer.compose_spec(&inner).end <= outer.end,
        outer.compose_spec(&inner).end - outer.compose_spec(&inner).start == inner.end
            - inner.start,
{
}

/// Selecting by the composed range is selecting by `outer` and then, within what that gave, by
/// `inner`.
pub proof fn lemma_compose_selects_the_same<A>(s: Seq<A>, outer: Range<usize>, inner: Range<usize>)
    requires
        outer.can_compose(&inner),
        inner.start <= inner.end,
        outer.end <= s.len(),
    ensures
        slice_of(s, outer.compose_spec(&inner)) == slice_of(slice_of(s, outer), inner),
{
}

/// The join of two ranges selects what the first selects followed by what the second selects.
pub proof fn lemma_concat_joins_slices<A>(s: Seq<A>, first: Range<usize>, after: Range<usize>)
    requires
        first.can_concat(&after),
        first.start <= first.end,
        after.start <= after.end,
        after.end <= s.len(),
    ensures
        slice_of(s, first.concat_spec(after)) == slice_of(s, first) + slice_of(s, after),
{
}

/// What a range selects is what the part before `middle` selects, then what `middle` selects,
/// then what the part after it selects.
pub proof fn lemma_cut_leaves_out_middle<A>(s: Seq<A>, r: Range<usize>, middle: Range<usize>)
    requires
        r.can_cut(&middle),
        r.end <= s.len(),
    ensures
        slice_of(s, r) == slice_of(s, r.cut_spec(&middle).0) + slice_of(s, middle) + slice_of(
            s,
            r.cut_spec(&middle).1,
        ),
{
}

} // verus!
