use lazy_flatten::{
    collect, collect_rev, count, flatten, BackCursor, Cursor, Flatten, IteratorExt, Prefixes, Span,
    VecCursor,
};

fn nested<T>(v: Vec<Vec<T>>) -> VecCursor<VecCursor<T>> {
    VecCursor::new(v.into_iter().map(VecCursor::new).collect())
}

#[test]
fn count_is_sum_of_inner_counts() {
    let f = flatten(nested(vec![vec![1, 2, 3], vec![], vec![4], vec![5, 6]]));
    assert_eq!(count(f), 3 + 0 + 1 + 2);
}

#[test]
fn order_is_outer_then_inner() {
    assert_eq!(collect(flatten(nested(vec![vec![1], vec![2, 3]]))), vec![1, 2, 3]);
}

#[test]
fn empty_inners_between_full_ones_are_skipped() {
    let f = flatten(nested(vec![vec![], vec![7], vec![], vec![], vec![8, 9], vec![]]));
    assert_eq!(collect(f), vec![7, 8, 9]);
}

#[test]
fn backward_order_is_reverse_of_forward() {
    let v = vec![vec![1, 2], vec![], vec![3], vec![4, 5, 6]];
    let mut fwd = collect(flatten(nested(v.clone())));
    fwd.reverse();
    assert_eq!(collect_rev(flatten(nested(v))), fwd);
}

#[test]
fn terminal_state_stays_terminal() {
    let mut f = flatten(nested(vec![vec![1]]));
    assert_eq!(f.next(), Some(1));
    for _ in 0..3 {
        assert_eq!(f.next(), None);
        assert_eq!(f.next_back(), None);
    }
}

#[test]
fn forward_falls_back_on_back_inner() {
    let mut f = flatten(nested(vec![vec![1, 2, 3]]));
    assert_eq!(f.next_back(), Some(3));
    assert_eq!(f.next(), Some(1));
    assert_eq!(f.next(), Some(2));
    assert_eq!(f.next(), None);
    assert_eq!(f.next_back(), None);
}

#[test]
fn backward_falls_back_on_front_inner() {
    let mut f = flatten(nested(vec![vec![1, 2, 3]]));
    assert_eq!(f.next(), Some(1));
    assert_eq!(f.next_back(), Some(3));
    assert_eq!(f.next_back(), Some(2));
    assert_eq!(f.next_back(), None);
    assert_eq!(f.next(), None);
}

#[test]
fn fluent_form_matches_free_form() {
    let v = vec![vec![0, 1], vec![2], vec![], vec![3, 4]];
    assert_eq!(collect(nested(v.clone()).our_flatten()), collect(flatten(nested(v))));
}

#[test]
fn new_is_lazy_and_equivalent() {
    let f: Flatten<VecCursor<VecCursor<u8>>> = Flatten::new(nested(vec![vec![5], vec![6]]));
    assert_eq!(collect(f), vec![5, 6]);
}

#[test]
fn deep_keeps_order() {
    let inner = nested(vec![vec![1, 2], vec![3]]);
    let other = nested(vec![vec![4], vec![], vec![5, 6]]);
    let outer = VecCursor::new(vec![inner, other]);
    assert_eq!(collect(flatten(flatten(outer))), vec![1, 2, 3, 4, 5, 6]);
}

#[test]
fn deep_backward() {
    let outer = VecCursor::new(vec![nested(vec![vec![1, 2], vec![3]]), nested(vec![vec![4]])]);
    assert_eq!(collect_rev(flatten(flatten(outer))), vec![4, 3, 2, 1]);
}

#[test]
fn vec_cursor_drains_both_ends() {
    let mut c = VecCursor::new(vec![1, 2, 3, 4]);
    assert_eq!(c.next(), Some(1));
    assert_eq!(c.next_back(), Some(4));
    assert_eq!(c.next_back(), Some(3));
    assert_eq!(c.next(), Some(2));
    assert_eq!(c.next(), None);
    assert_eq!(c.next_back(), None);
}

#[test]
fn count_and_collect_on_plain_cursor() {
    assert_eq!(count(VecCursor::new(vec!['x', 'y'])), 2);
    assert_eq!(collect(VecCursor::new(vec!['x', 'y'])), vec!['x', 'y']);
    assert_eq!(collect_rev(VecCursor::new(vec!['x', 'y'])), vec!['y', 'x']);
    assert_eq!(count(VecCursor::new(Vec::<char>::new())), 0);
}

#[test]
fn span_yields_half_open_range() {
    assert_eq!(collect(Span::new(3, 6)), vec![3, 4, 5]);
    assert_eq!(collect_rev(Span::new(3, 6)), vec![5, 4, 3]);
    assert_eq!(count(Span::new(6, 3)), 0);
    assert_eq!(count(Span::new(4, 4)), 0);
}

#[test]
fn prefixes_yield_growing_ranges() {
    assert_eq!(collect(flatten(Prefixes::new(1, 4))), vec![0, 0, 1, 0, 1, 2]);
    assert_eq!(collect_rev(flatten(Prefixes::new(1, 4))), vec![2, 1, 0, 1, 0, 0]);
    assert_eq!(count(flatten(Prefixes::new(5, 2))), 0);
}

#[test]
fn unbounded_source_from_the_back() {
    let mut f = flatten(Prefixes::new(0, u64::MAX));
    assert_eq!(f.next(), Some(0));
    assert_eq!(f.next_back(), Some(u64::MAX - 2));
    assert_eq!(f.next_back(), Some(u64::MAX - 3));
}
