use intervals::bounds::{Closed, NoBound, Open, OpenOrClosed};
use intervals::Interval;

#[test]
fn contains_on_static_kinds() {
    let whole = Interval::<NoBound<i32>, NoBound<i32>>::unbounded();
    assert!(whole.contains(i32::MIN));
    assert!(whole.contains(0));
    assert!(whole.contains(i32::MAX));

    let open = Interval::open_unchecked(0, 2);
    assert!(!open.contains(0));
    assert!(open.contains(1));
    assert!(!open.contains(2));

    let closed = Interval::closed_unchecked(0, 2);
    assert!(!closed.contains(-1));
    assert!(closed.contains(0));
    assert!(closed.contains(2));
    assert!(!closed.contains(3));

    let lcro = Interval::lcro_unchecked(0, 2);
    assert!(lcro.contains(0));
    assert!(lcro.contains(1));
    assert!(!lcro.contains(2));

    let lorc = Interval::lorc_unchecked(0, 2);
    assert!(!lorc.contains(0));
    assert!(lorc.contains(1));
    assert!(lorc.contains(2));

    assert!(!Interval::left_open(0).contains(0));
    assert!(Interval::left_open(0).contains(1));
    assert!(Interval::left_closed(0).contains(0));
    assert!(!Interval::left_closed(0).contains(-1));
    assert!(!Interval::right_open(0).contains(0));
    assert!(Interval::right_open(0).contains(-1));
    assert!(Interval::right_closed(0).contains(0));
    assert!(!Interval::right_closed(0).contains(1));
}

#[test]
fn contains_on_dynamic_right_bounds() {
    let right_open = Interval::new_unchecked(NoBound::new(), OpenOrClosed::Open(2));
    assert!(right_open.contains(1));
    assert!(!right_open.contains(2));
    let right_closed = Interval::new_unchecked(NoBound::new(), OpenOrClosed::Closed(2));
    assert!(right_closed.contains(2));
    assert!(!right_closed.contains(3));

    let open_open = Interval::new_unchecked(Open(0), OpenOrClosed::Open(2));
    assert!(!open_open.contains(0));
    assert!(open_open.contains(1));
    assert!(!open_open.contains(2));
    assert!(!open_open.contains(3));
    let open_closed = Interval::new_unchecked(Open(0), OpenOrClosed::Closed(2));
    assert!(!open_closed.contains(0));
    assert!(open_closed.contains(2));
    assert!(!open_closed.contains(3));

    let closed_open = Interval::new_unchecked(Closed(0), OpenOrClosed::Open(2));
    assert!(closed_open.contains(0));
    assert!(closed_open.contains(1));
    assert!(!closed_open.contains(2));
    assert!(!closed_open.contains(3));
    let closed_closed = Interval::new_unchecked(Closed(0), OpenOrClosed::Closed(2));
    assert!(closed_closed.contains(0));
    assert!(closed_closed.contains(2));
    assert!(!closed_closed.contains(-1));
}

#[test]
fn contains_on_dynamic_left_bounds() {
    let left_open = Interval::new_unchecked(OpenOrClosed::Open(0), NoBound::new());
    assert!(!left_open.contains(0));
    assert!(left_open.contains(1));
    let left_closed = Interval::new_unchecked(OpenOrClosed::Closed(0), NoBound::new());
    assert!(left_closed.contains(0));
    assert!(!left_closed.contains(-1));

    let open_open = Interval::new_unchecked(OpenOrClosed::Open(0), Open(2));
    assert!(!open_open.contains(0));
    assert!(open_open.contains(1));
    assert!(!open_open.contains(2));
    let closed_open = Interval::new_unchecked(OpenOrClosed::Closed(0), Open(2));
    assert!(closed_open.contains(0));
    assert!(!closed_open.contains(2));

    let open_closed = Interval::new_unchecked(OpenOrClosed::Open(0), Closed(2));
    assert!(!open_closed.contains(0));
    assert!(open_closed.contains(2));
    let closed_closed = Interval::new_unchecked(OpenOrClosed::Closed(0), Closed(2));
    assert!(closed_closed.contains(0));
    assert!(closed_closed.contains(2));
    assert!(!closed_closed.contains(3));
}

#[test]
fn contains_on_doubly_dynamic_bounds() {
    for left_open in [false, true] {
        for right_open in [false, true] {
            let left = if left_open {
                OpenOrClosed::Open(0)
            } else {
                OpenOrClosed::Closed(0)
            };
            let right = if right_open {
                OpenOrClosed::Open(2)
            } else {
                OpenOrClosed::Closed(2)
            };
            let interval = Interval::new_unchecked(left, right);

            assert!(!interval.contains(-1));
            assert_eq!(interval.contains(0), !left_open);
            assert!(interval.contains(1));
            assert_eq!(interval.contains(2), !right_open);
            assert!(!interval.contains(3));
        }
    }
}

#[test]
fn an_intersection_contains_what_both_intervals_contain() {
    for a in -1..=3 {
        for b in -1..=3 {
            let x = Interval::closed_unchecked(0, 2);
            let y = Interval::lorc_unchecked(a, b);
            for v in -2..=4 {
                let both = x.contains(v) && y.contains(v);
                match x.intersect(y) {
                    Some(meet) => assert_eq!(meet.contains(v), both),
                    None => assert!(!both),
                }
            }
        }
    }
}

#[test]
fn nothing_is_contained_where_the_value_cannot_be_compared() {
    assert!(!Interval::closed_unchecked(0.0, 1.0).contains(f64::NAN));
    assert!(!Interval::open_unchecked(0.0, 1.0).contains(f64::NAN));
    assert!(!Interval::left_closed(0.0).contains(f64::NAN));
}
