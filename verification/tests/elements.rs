use rangecutter::compose::RangeCompose;
use rangecutter::cut::RangeCut;
use rangecutter::RangeExt;

#[test]
fn signed_bounds() {
    assert_eq!((-5i64..0).concat(0..5), -5..5);
    assert_eq!((-5i64..5).remove_prefix(-5..-2), -2..5);
    assert_eq!((-5i64..5).remove_suffix(-1..5), -5..-1);
    assert_eq!(RangeExt::cut(-5i64..5, &(-1..1)), (-5..-1, 1..5));
    assert_eq!(RangeExt::compose(&(-5i64..5), &(2..4)), -3..-1);
}

#[test]
fn narrow_bounds_up_to_their_maximum() {
    assert_eq!((0u8..200).concat(200..255), 0..255);
    assert_eq!(RangeExt::cut(0u8..255, &(254..255)), (0..254, 255..255));
    assert_eq!(RangeExt::compose(&(200u8..255), &(0..55)), 200..255);
    assert_eq!(RangeExt::compose(&(200u8..255), &(55..55)), 255..255);
}

#[test]
fn bounds_that_are_characters() {
    assert_eq!(('a'..'m').concat('m'..'z'), 'a'..'z');
    assert_eq!(('a'..'z').remove_prefix('a'..'c'), 'c'..'z');
    assert_eq!(('a'..'z').remove_suffix('x'..'z'), 'a'..'x');
    assert_eq!(RangeExt::cut('a'..'z', &('k'..'m')), ('a'..'k', 'm'..'z'));
}

#[test]
fn bounds_that_are_cloned_strings() {
    let whole = String::from("apple")..String::from("plum");
    let middle = String::from("cherry")..String::from("fig");
    let (before, after) = RangeExt::cut(whole, &middle);
    assert_eq!(before, String::from("apple")..String::from("cherry"));
    assert_eq!(after, String::from("fig")..String::from("plum"));
    assert_eq!(middle, String::from("cherry")..String::from("fig"));
}

#[test]
fn cut_through_its_own_trait() {
    assert_eq!(RangeCut::cut(0..5, &(1..3)), (0..1, 3..5));
    assert_eq!(RangeCut::cut(0usize..5, &(0..5)), (0..0, 5..5));
}

#[test]
fn compose_through_its_own_trait() {
    assert_eq!(RangeCompose::compose(&(2..4), &(1..2)), 3..4);
    assert_eq!(RangeCompose::compose(&(7usize..9), &(0..2)), 7..9);
}
