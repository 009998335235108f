//! What the operations and their laws ask of the element type of a range.
//!
//! A range is generic over the type of its bounds. The operations speak of how bounds compare
//! under `==`, `<` and `<=`, and two of them clone bounds. The predicates here say when those
//! calls do what their names promise, so that a contract can speak of the bounds themselves.
use core::cmp::Ordering;
use vstd::prelude::*;
use vstd::std_specs::cmp::PartialEqSpec;
use vstd::std_specs::cmp::PartialOrdSpec;

verus! {

/// Every clone of `x` is `x` itself.
///
/// This holds of every value of a type whose `clone` is known to copy, all integer types among
/// them.
pub open spec fn clones_exactly<T: Clone>(x: T) -> bool {
    forall|c: T| #[trigger] call_ensures(T::clone, (&x,), c) ==> c == x
}

/// The comparisons of `T` run as specified and are those of a total order in which two values
/// are equal only if they are the same value.
///
/// This holds of all integer types.
pub open spec fn totally_ordered<T: PartialOrd>() -> bool {
    &&& T::obeys_eq_spec()
    &&& T::obeys_partial_cmp_spec()
    &&& forall|x: T, y: T| #![trigger x.eq_spec(&y)] x.eq_spec(&y) <==> x == y
    &&& forall|x: T, y: T|
        #![trigger x.partial_cmp_spec(&y)]
        x.partial_cmp_spec(&y) == Some(Ordering::Equal) <==> x == y
    &&& forall|x: T, y: T|
        #![trigger x.partial_cmp_spec(&y)]
        x.partial_cmp_spec(&y) == Some(Ordering::Less) <==> y.partial_cmp_spec(&x) == Some(
            Ordering::Greater,
        )
    &&& forall|x: T, y: T| #![trigger x.partial_cmp_spec(&y)] x.partial_cmp_spec(&y).is_some()
    &&& forall|x: T, y: T, z: T|
        #![trigger x.partial_cmp_spec(&y), y.partial_cmp_spec(&z)]
        x.partial_cmp_spec(&y) == Some(Ordering::Less) && y.partial_cmp_spec(&z) == Some(
            Ordering::Less,
        ) ==> x.partial_cmp_spec(&z) == Some(Ordering::Less)
}

} // verus!
