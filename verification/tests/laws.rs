use rangecutter::RangeExt;
use std::ops::Range;

fn touching_pairs() -> Vec<(Range<usize>, Range<usize>)> {
    vec![(0..3, 3..4), (0..0, 0..5), (2..7, 7..7), (5..5, 5..5), (1..2, 2..usize::MAX)]
}

fn cuts() -> Vec<(Range<usize>, Range<usize>)> {
    vec![(0..5, 1..3), (0..5, 0..5), (0..5, 0..1), (0..5, 4..5), (3..usize::MAX, 10..20)]
}

#[test]
fn joining_undoes_cutting() {
    for (r, middle) in cuts() {
        let (before, after) = r.clone().cut(&middle);
        assert_eq!(before.concat(middle).concat(after), r);
    }
}

#[test]
fn removing_undoes_joining() {
    for (first, after) in touching_pairs() {
        let joined = first.clone().concat(after.clone());
        assert_eq!(joined, first.start..after.end);
        assert_eq!(joined.clone().remove_prefix(first.clone()), after);
        assert_eq!(joined.remove_suffix(after), first);
    }
}

#[test]
fn joining_undoes_removing_a_prefix() {
    for (r, middle) in cuts() {
        let prefix = r.start..middle.end;
        let rest = r.clone().remove_prefix(prefix.clone());
        assert_eq!(rest, prefix.end..r.end);
        assert_eq!(prefix.concat(rest), r);
    }
}

#[test]
fn joining_undoes_removing_a_suffix() {
    for (r, middle) in cuts() {
        let suffix = middle.start..r.end;
        let rest = r.clone().remove_suffix(suffix.clone());
        assert_eq!(rest, r.start..suffix.start);
        assert_eq!(rest.concat(suffix), r);
    }
}

#[test]
fn removing_a_range_from_itself_leaves_nothing() {
    for (r, _) in cuts() {
        assert_eq!(r.clone().remove_prefix(r.clone()), r.end..r.end);
        assert_eq!(r.clone().remove_suffix(r.clone()), r.start..r.start);
    }
}

#[test]
fn results_are_well_formed() {
    for (r, middle) in cuts() {
        let (before, after) = r.clone().cut(&middle);
        assert!(before.start <= before.end);
        assert!(after.start <= after.end);
        let rest = r.clone().remove_prefix(r.start..middle.start);
        assert!(rest.start <= rest.end);
        let rest = r.clone().remove_suffix(middle.end..r.end);
        assert!(rest.start <= rest.end);
    }
    for (first, after) in touching_pairs() {
        let joined = first.concat(after);
        assert!(joined.start <= joined.end);
    }
}

#[test]
fn a_cut_selects_all_but_the_middle() {
    let s: Vec<u8> = (0..40).collect();
    for (r, middle) in vec![(0..5, 1..3), (3..40, 10..20), (7..9, 7..9)] {
        let (before, after) = r.clone().cut(&middle);
        let mut whole: Vec<u8> = Vec::new();
        whole.extend_from_slice(&s[before]);
        whole.extend_from_slice(&s[middle]);
        whole.extend_from_slice(&s[after]);
        assert_eq!(whole, s[r]);
    }
}

#[test]
fn a_join_selects_one_part_after_the_other() {
    let s: Vec<u8> = (0..40).collect();
    for (first, after) in vec![(0..3, 3..4), (0..0, 0..5), (2..7, 7..7), (5..30, 30..40)] {
        let mut both: Vec<u8> = Vec::new();
        both.extend_from_slice(&s[first.clone()]);
        both.extend_from_slice(&s[after.clone()]);
        assert_eq!(both, s[first.concat(after)]);
    }
}

#[test]
fn a_composition_selects_what_two_steps_select() {
    let s: Vec<u8> = (0..40).collect();
    for (outer, inner) in vec![(2..4, 1..2), (0..40, 0..40), (10..30, 5..5), (10..30, 0..20), (39..40, 1..1)] {
        let composed = outer.compose(&inner);
        assert!(outer.start <= composed.start);
        assert!(composed.end <= outer.end);
        assert_eq!(composed.end - composed.start, inner.end - inner.start);
        assert_eq!(s[composed], s[outer][inner]);
    }
}
