//! Laws that hold between the operations.
//!
//! Each law is stated for element types that are totally ordered (see [`totally_ordered`]),
//! which all integer types are.
use crate::cut::RangeCut;
use crate::element::totally_ordered;
use crate::RangeExt;
use std::ops::Range;
use vstd::prelude::*;
use vstd::std_specs::cmp::PartialOrdIs;

verus! {

/// A range whose start is not above its end. One whose start is its end is empty.
pub open spec fn well_formed<T: PartialOrd>(r: Range<T>) -> bool {
    r.start.is_le(&r.end)
}

/// Joining undoes cutting: the part before `middle` touches `middle`, the two joined touch the
/// part after it, and the three joined are the range that was cut.
pub proof fn lemma_concat_undoes_cut<T: PartialOrd + Clone>(r: Range<T>, middle: Range<T>)
    requires
        totally_ordered::<T>(),
        r.can_cut(&middle),
    ensures
        r.cut_spec(&middle).0.can_concat(&middle),
        r.cut_spec(&middle).0.concat_spec(middle).can_concat(&r.cut_spec(&middle).1),
        r.cut_spec(&middle).0.concat_spec(middle).concat_spec(r.cut_spec(&middle).1) == r,
{
}

/// Removing undoes joining: of two well-formed ranges that touch, each is what is left of
/// their join when the other is taken off its end.
pub proof fn lemma_removal_undoes_concat<T: PartialOrd>(first: Range<T>, after: Range<T>)
    requires
        totally_ordered::<T>(),
        well_formed(first),
        well_formed(after),
        first.can_concat(&after),
    ensures
        first.concat_spec(after).can_remove_prefix(&first),
        first.concat_spec(after).remove_prefix_spec(first) == after,
        first.concat_spec(after).can_remove_suffix(&after),
        first.concat_spec(after).remove_suffix_spec(after) == first,
{
}

/// Joining undoes the removal of a prefix: the prefix touches what is left, and the two joined
/// are the range it was taken off.
pub proof fn lemma_concat_undoes_remove_prefix<T: PartialOrd>(r: Range<T>, prefix: Range<T>)
    requires
        totally_ordered::<T>(),
        r.can_remove_prefix(&prefix),
    ensures
        prefix.can_concat(&r.remove_prefix_spec(prefix)),
        prefix.concat_spec(r.remove_prefix_spec(prefix)) == r,
{
}

/// Joining undoes the removal of a suffix: what is left touches the suffix, and the two joined
/// are the range it was taken off.
pub proof fn lemma_concat_undoes_remove_suffix<T: PartialOrd>(r: Range<T>, suffix: Range<T>)
    requires
        totally_ordered::<T>(),
        r.can_remove_suffix(&suffix),
    ensures
        r.remove_suffix_spec(suffix).can_concat(&suffix),
        r.remove_suffix_spec(suffix).concat_spec(suffix) == r,
{
}

/// Any range is a prefix of itself, and taking it off leaves the empty range at its end.
pub proof fn lemma_remove_whole_prefix<T: PartialOrd>(r: Range<T>)
    requires
        totally_ordered::<T>(),
    ensures
        r.can_remove_prefix(&r),
        r.remove_prefix_spec(r) == (r.end..r.end),
{
}

/// Any range is a suffix of itself, and taking it off leaves the empty range at its start.
pub proof fn lemma_remove_whole_suffix<T: PartialOrd>(r: Range<T>)
    requires
        totally_ordered::<T>(),
    ensures
        r.can_remove_suffix(&r),
        r.remove_suffix_spec(r) == (r.start..r.start),
{
}

/// The join of two well-formed ranges is well-formed.
pub proof fn lemma_concat_is_well_formed<T: PartialOrd>(first: Range<T>, after: Range<T>)
    requires
        totally_ordered::<T>(),
        well_formed(first),
        well_formed(after),
        first.can_concat(&after),
    ensures
        well_formed(first.concat_spec(after)),
{
}

/// What is left when a prefix or a suffix is taken off is well-formed, and so are both parts
/// that a cut gives.
pub proof fn lemma_parts_are_well_formed<T: PartialOrd + Clone>(r: Range<T>, part: Range<T>)
    ensures
        r.can_remove_prefix(&part) ==> well_formed(r.remove_prefix_spec(part)),
        r.can_remove_suffix(&part) ==> well_formed(r.remove_suffix_spec(part)),
        r.can_cut(&part) ==> well_formed(r.cut_spec(&part).0) && well_formed(r.cut_spec(&part).1),
{
}

} // verus!
