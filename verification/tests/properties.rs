use intervals::bounds::{
    validate, Bound, Closed, LimitPoint, NoBound, Open, OpenOrClosed, Pinch, ProperBound, Unroll,
    ValidationError,
};
use intervals::{Bounded, Interval};

fn dynamic(open: bool, value: i32) -> OpenOrClosed<i32> {
    if open {
        OpenOrClosed::Open(value)
    } else {
        OpenOrClosed::Closed(value)
    }
}

fn is_bounded<T: Bounded>(_: &T) -> bool {
    true
}

#[test]
fn validate_follows_the_ordering_rule() {
    for l in -2..=2 {
        for r in -2..=2 {
            assert_eq!(validate(Closed(l), Closed(r)).is_ok(), !(l > r));
            assert_eq!(validate(Closed(l), Open(r)).is_ok(), !(l >= r));
            assert_eq!(validate(Open(l), Closed(r)).is_ok(), !(l >= r));
            assert_eq!(validate(Open(l), Open(r)).is_ok(), !(l >= r));

            for left_open in [false, true] {
                for right_open in [false, true] {
                    let expected = if left_open || right_open {
                        !(l >= r)
                    } else {
                        !(l > r)
                    };
                    let left = dynamic(left_open, l);
                    let right = dynamic(right_open, r);

                    assert_eq!(validate(left, right).is_ok(), expected);
                    assert_eq!(validate(left, dynamic(right_open, r)).is_ok(), expected);
                }
            }
        }
    }
}

#[test]
fn validate_accepts_every_pair_with_an_unbounded_side() {
    for x in -2..=2 {
        assert!(validate(NoBound::new(), Open(x)).is_ok());
        assert!(validate(NoBound::new(), Closed(x)).is_ok());
        assert!(validate(NoBound::new(), OpenOrClosed::Open(x)).is_ok());
        assert!(validate(NoBound::new(), OpenOrClosed::Closed(x)).is_ok());
        assert!(validate(Open(x), NoBound::new()).is_ok());
        assert!(validate(Closed(x), NoBound::new()).is_ok());
        assert!(validate(OpenOrClosed::Open(x), NoBound::new()).is_ok());
        assert!(validate(OpenOrClosed::Closed(x), NoBound::new()).is_ok());
    }
    assert!(validate(NoBound::<i32>::new(), NoBound::<i32>::new()).is_ok());
}

#[test]
fn validate_hands_the_bounds_back() {
    match validate(Closed(3), Open(7)) {
        Ok((left, right)) => {
            assert_eq!(left, Closed(3));
            assert_eq!(right, Open(7));
        },
        Err(_) => panic!("bounds in order were refused"),
    }
    match validate(Closed(7), Open(3)) {
        Ok(_) => panic!("bounds out of order were accepted"),
        Err(ValidationError::DecreasingBounds(left, right)) => {
            assert_eq!(left, Closed(7));
            assert_eq!(right, Open(3));
        },
    }
}

#[test]
fn validate_accepts_what_cannot_be_compared() {
    assert!(validate(Closed(f64::NAN), Closed(0.0)).is_ok());
    assert!(validate(Open(0.0), Open(f64::NAN)).is_ok());
}

#[test]
fn intersect_is_commutative_for_every_pair_of_kinds() {
    let kinds = [false, true];
    for a in -1..=2 {
        for b in -1..=2 {
            for c in -1..=2 {
                for d in -1..=2 {
                    for ka in kinds {
                        for kb in kinds {
                            for kc in kinds {
                                for kd in kinds {
                                    let x =
                                        Interval::new_unchecked(dynamic(ka, a), dynamic(kb, b));
                                    let y =
                                        Interval::new_unchecked(dynamic(kc, c), dynamic(kd, d));

                                    assert_eq!(x.intersect(y), y.intersect(x));
                                    assert_eq!(x.union_closure(y), y.union_closure(x));
                                }
                            }
                        }
                    }
                }
            }
        }
    }
}

#[test]
fn intersect_is_commutative_across_static_kinds() {
    for a in -1..=2 {
        for b in -1..=2 {
            let closed = Interval::closed_unchecked(0, 1);
            let open = Interval::open_unchecked(a, b);
            let lorc = Interval::lorc_unchecked(a, b);
            let lcro = Interval::lcro_unchecked(a, b);

            assert_eq!(closed.intersect(open), open.intersect(closed));
            assert_eq!(closed.intersect(lorc), lorc.intersect(closed));
            assert_eq!(closed.intersect(lcro), lcro.intersect(closed));
            assert_eq!(open.intersect(lorc), lorc.intersect(open));
            assert_eq!(lcro.intersect(lorc), lorc.intersect(lcro));
            assert_eq!(
                closed.intersect(Interval::left_open(a)),
                Interval::left_open(a).intersect(closed)
            );
            assert_eq!(
                closed.intersect(Interval::right_closed(b)),
                Interval::right_closed(b).intersect(closed)
            );
        }
    }
}

#[test]
fn intersect_is_not_commutative_on_values_without_order() {
    let x = Interval::closed_unchecked(f64::NAN, 1.0);
    let y = Interval::closed_unchecked(0.0, 1.0);

    assert_eq!(x.intersect(y).unwrap().left, Closed(0.0));
    assert!(y.intersect(x).unwrap().left.0.is_nan());
}

#[test]
fn unbounded_is_the_identity_of_intersect() {
    for a in -2..=2 {
        for b in (a + 1)..=3 {
            let closed = Interval::closed_unchecked(a, b);
            assert_eq!(Interval::unbounded().intersect(closed).unwrap(), closed);
            assert_eq!(closed.intersect(Interval::unbounded()).unwrap(), closed);

            let open = Interval::open_unchecked(a, b);
            assert_eq!(Interval::unbounded().intersect(open).unwrap(), open);
            assert_eq!(open.intersect(Interval::unbounded()).unwrap(), open);

            let lorc = Interval::lorc_unchecked(a, b);
            assert_eq!(Interval::unbounded().intersect(lorc).unwrap(), lorc);

            let lcro = Interval::lcro_unchecked(a, b);
            assert_eq!(Interval::unbounded().intersect(lcro).unwrap(), lcro);

            let mixed = Interval::new_unchecked(OpenOrClosed::Open(a), OpenOrClosed::Closed(b));
            assert_eq!(Interval::unbounded().intersect(mixed).unwrap(), mixed);
            assert_eq!(mixed.intersect(Interval::unbounded()).unwrap(), mixed);
        }
        let ray = Interval::left_closed(a);
        assert_eq!(Interval::unbounded().intersect(ray).unwrap(), ray);
    }
    let whole = Interval::<NoBound<i32>, NoBound<i32>>::unbounded();
    assert_eq!(whole.intersect(whole).unwrap(), whole);
}

#[test]
fn unbounded_intersected_with_an_invalid_interval_is_empty() {
    let backwards = Interval::closed_unchecked(1, 0);

    assert!(Interval::unbounded().intersect(backwards).is_none());
    assert!(backwards.intersect(Interval::unbounded()).is_none());
}

#[test]
fn unbounded_absorbs_under_union_closure() {
    let whole = Interval::<NoBound<i32>, NoBound<i32>>::unbounded();
    for a in -2..=2 {
        for b in -2..=2 {
            assert_eq!(whole.union_closure(Interval::closed_unchecked(a, b)), whole);
            assert_eq!(Interval::open_unchecked(a, b).union_closure(whole), whole);
            assert_eq!(whole.union_closure(Interval::lorc_unchecked(a, b)), whole);
            assert_eq!(Interval::lcro_unchecked(a, b).union_closure(whole), whole);
            assert_eq!(
                whole.union_closure(Interval::new_unchecked(
                    OpenOrClosed::Open(a),
                    OpenOrClosed::Closed(b)
                )),
                whole
            );
        }
        assert_eq!(whole.union_closure(Interval::left_open(a)), whole);
        assert_eq!(Interval::right_closed(a).union_closure(whole), whole);
    }
    assert_eq!(whole.union_closure(whole), whole);
}

#[test]
fn union_closure_heals_the_gap_between_adjacent_intervals() {
    let left = Interval::lorc_unchecked(0, 1);
    let right = Interval::lcro_unchecked(1, 2);
    let hull = left.union_closure(right);

    assert_eq!(hull, Interval::closed_unchecked(0, 2));
    assert!(hull.contains(0));
    assert!(hull.contains(1));
    assert!(hull.contains(2));

    let apart = Interval::open_unchecked(0, 1).union_closure(Interval::open_unchecked(1, 2));
    assert_eq!(apart, Interval::closed_unchecked(0, 2));
}

#[test]
fn unit_interval_contains_its_ends() {
    assert!(!Interval::unit().contains(-0.5));
    assert!(Interval::unit().contains(0.0));
    assert!(Interval::unit().contains(0.5));
    assert!(Interval::unit().contains(1.0));

    let closed = Interval::closed_unchecked(0.0, 1.0);
    assert!(!closed.contains(-0.5));
    assert!(closed.contains(0.0));
    assert!(closed.contains(0.5));
    assert!(closed.contains(1.0));
    assert!(!closed.contains(1.5));
}

#[test]
fn unit_interval_runs_from_zero_to_one() {
    assert_eq!(Interval::<Closed<f64>, Closed<f64>>::unit(), Interval::closed_unchecked(0.0, 1.0));
    assert_eq!(Interval::<Closed<u8>, Closed<u8>>::unit(), Interval::closed_unchecked(0u8, 1u8));
    assert_eq!(Interval::<Closed<i64>, Closed<i64>>::unit().left.0, 0);
    assert_eq!(Interval::<Closed<i64>, Closed<i64>>::unit().right.0, 1);
}

#[test]
fn closed_intersect_overlapping_closed() {
    let x = Interval::closed_unchecked(0.0, 1.0);
    let y = Interval::closed_unchecked(0.5, 1.5);

    assert_eq!(x.intersect(y).unwrap(), Interval::closed_unchecked(0.5, 1.0));
}

#[test]
fn closed_intersect_open_at_a_shared_end_is_empty() {
    let closed = Interval::closed_unchecked(0.0, 1.0);
    assert!(closed.intersect(Interval::open_unchecked(1.0, 2.0)).is_none());

    let open = Interval::open_unchecked(0.0, 1.0);
    assert!(open.intersect(Interval::closed_unchecked(1.0, 2.0)).is_none());
}

#[test]
fn closed_intersect_closed_at_a_shared_end_is_degenerate() {
    let x = Interval::closed_unchecked(0.0, 1.0);
    let y = Interval::closed_unchecked(1.0, 2.0);
    let meet = x.intersect(y).unwrap();

    assert_eq!(meet, Interval::degenerate(1.0));
    assert!(meet.is_degenerate());
}

#[test]
fn is_degenerate_needs_closed_bounds_with_equal_values() {
    assert!(Interval::closed_unchecked(0.0, 0.0).is_degenerate());
    assert!(Interval::degenerate(7).is_degenerate());
    assert!(!Interval::closed_unchecked(0.0, 1.0).is_degenerate());
    assert!(!Interval::open_unchecked(0.0, 0.0).is_degenerate());
    assert!(!Interval::lorc_unchecked(0.0, 0.0).is_degenerate());
    assert!(!Interval::lcro_unchecked(0.0, 0.0).is_degenerate());
    assert!(!Interval::left_closed(0.0).is_degenerate());
    assert!(!Interval::right_closed(0.0).is_degenerate());
    assert!(!Interval::<NoBound<f64>, NoBound<f64>>::unbounded().is_degenerate());
    assert!(Interval::new_unchecked(OpenOrClosed::Closed(1), OpenOrClosed::Closed(1))
        .is_degenerate());
    assert!(!Interval::new_unchecked(OpenOrClosed::Closed(1), OpenOrClosed::Open(1))
        .is_degenerate());
    assert!(!Interval::closed_unchecked(f64::NAN, f64::NAN).is_degenerate());
}

#[test]
fn checked_constructors_read_back_their_inputs() {
    let closed = Interval::closed(1, 2).unwrap();
    assert_eq!(closed.left.value(), Some(&1));
    assert_eq!(closed.right.value(), Some(&2));
    assert!(closed.left.is_closed() && !closed.left.is_open());
    assert!(closed.right.is_closed() && !closed.right.is_open());
    assert_eq!(closed.left.proper_value(), &1);
    assert_eq!(closed.right.proper_value(), &2);

    let open = Interval::open(1, 2).unwrap();
    assert_eq!(open.left.value(), Some(&1));
    assert_eq!(open.right.value(), Some(&2));
    assert!(open.left.is_open() && !open.left.is_closed());
    assert!(open.right.is_open() && !open.right.is_closed());

    let lorc = Interval::lorc(1, 2).unwrap();
    assert_eq!(lorc.left.value(), Some(&1));
    assert_eq!(lorc.right.value(), Some(&2));
    assert!(lorc.left.is_open() && !lorc.left.is_closed());
    assert!(lorc.right.is_closed() && !lorc.right.is_open());

    let lcro = Interval::lcro(1, 2).unwrap();
    assert_eq!(lcro.left.value(), Some(&1));
    assert_eq!(lcro.right.value(), Some(&2));
    assert!(lcro.left.is_closed() && !lcro.left.is_open());
    assert!(lcro.right.is_open() && !lcro.right.is_closed());

    let mixed = Interval::new(OpenOrClosed::Open(1), OpenOrClosed::Closed(2)).unwrap();
    assert_eq!(mixed.left.value(), Some(&1));
    assert_eq!(mixed.right.value(), Some(&2));
    assert!(mixed.left.is_open() && !mixed.left.is_closed());
    assert!(mixed.right.is_closed() && !mixed.right.is_open());

    let ray = Interval::new(Closed(1), NoBound::new()).unwrap();
    assert_eq!(ray.left.value(), Some(&1));
    assert!(ray.right.value().is_none());
    assert!(!ray.right.is_open() && !ray.right.is_closed());
}

#[test]
fn checked_constructors_refuse_decreasing_bounds() {
    assert!(Interval::closed(2, 1).is_err());
    assert!(Interval::closed(1, 1).is_ok());
    assert!(Interval::open(1, 1).is_err());
    assert!(Interval::open(2, 1).is_err());
    assert!(Interval::lorc(1, 1).is_err());
    assert!(Interval::lorc(0, 1).is_ok());
    assert!(Interval::lcro(1, 1).is_err());
    assert!(Interval::lcro(0, 1).is_ok());

    match Interval::closed(2, 1) {
        Ok(_) => panic!("bounds out of order were accepted"),
        Err(ValidationError::DecreasingBounds(left, right)) => {
            assert_eq!(left, Closed(2));
            assert_eq!(right, Closed(1));
        },
    }
    match Interval::new(Open(5), OpenOrClosed::Closed(5)) {
        Ok(_) => panic!("bounds out of order were accepted"),
        Err(ValidationError::DecreasingBounds(left, right)) => {
            assert_eq!(left, Open(5));
            assert_eq!(right, Closed(5));
        },
    }
}

#[test]
fn one_sided_constructors_keep_their_bound() {
    assert_eq!(Interval::left_open(3).left, Open(3));
    assert_eq!(Interval::left_closed(3).left, Closed(3));
    assert_eq!(Interval::right_open(3).right, Open(3));
    assert_eq!(Interval::right_closed(3).right, Closed(3));
    assert_eq!(Interval::left_bounded(OpenOrClosed::Open(3)).left, Open(3));
    assert_eq!(Interval::right_bounded(OpenOrClosed::Closed(3)).right, Closed(3));
    assert!(Interval::left_bounded(Closed(3)).right.value().is_none());
    assert!(Interval::right_bounded(Closed(3)).left.value().is_none());
    assert_eq!(Interval::new_unchecked(Closed(2), Open(1)).left, Closed(2));
    assert_eq!(Interval::new_unchecked(Closed(2), Open(1)).right, Open(1));
    assert_eq!(Interval::degenerate(4), Interval::closed_unchecked(4, 4));
}

#[test]
fn bounds_of_different_kinds_are_never_equal() {
    assert!(Closed(1) != Open(1));
    assert!(Open(1) != Closed(1));
    assert!(Closed(1) != NoBound::new());
    assert!(Open(1) != NoBound::new());
    assert!(NoBound::new() != Closed(1));
    assert!(NoBound::new() != Open(1));
    assert!(NoBound::new() != OpenOrClosed::Open(1));
    assert!(OpenOrClosed::Closed(1) != NoBound::new());
    assert!(OpenOrClosed::Closed(1) != Open(1));
    assert!(OpenOrClosed::Open(1) != Closed(1));
    assert!(OpenOrClosed::Open(1) != OpenOrClosed::Closed(1));
    assert!(Closed(1) != OpenOrClosed::Open(1));

    assert!(OpenOrClosed::Closed(1) == Closed(1));
    assert!(OpenOrClosed::Open(1) == Open(1));
    assert!(Closed(1) == OpenOrClosed::Closed(1));
    assert!(Open(1) == OpenOrClosed::Open(1));
    assert!(OpenOrClosed::Open(1) == OpenOrClosed::Open(1));
    assert!(Closed(1) != Closed(2));
    assert!(Open(1) != OpenOrClosed::Open(2));
    assert!(NoBound::<i32>::new() == NoBound::<i32>::new());
}

#[test]
fn dynamic_bounds_unwrap_and_convert() {
    assert_eq!(OpenOrClosed::Open(3).unwrap(), 3);
    assert_eq!(OpenOrClosed::Closed(4).unwrap(), 4);
    assert_eq!(OpenOrClosed::from(Open(3)), OpenOrClosed::Open(3));
    assert_eq!(OpenOrClosed::from(Closed(3)), OpenOrClosed::Closed(3));

    let converted: OpenOrClosed<i32> = Open(5).into();
    assert!(converted.is_open());
    assert_eq!(converted.with_limit_point(), Closed(5));
}

#[test]
fn pinch_and_unroll_break_ties_by_kind() {
    assert_eq!(Closed(1).pinch_left(Open(1)), Open(1));
    assert_eq!(Open(1).pinch_left(Closed(1)), Open(1));
    assert_eq!(Closed(1).pinch_right(Open(1)), Open(1));
    assert_eq!(Open(1).pinch_right(Closed(1)), Open(1));

    assert_eq!(Closed(1).unroll_left(Open(1)), Closed(1));
    assert_eq!(Open(1).unroll_left(Closed(1)), Closed(1));
    assert_eq!(Closed(1).unroll_right(Open(1)), Closed(1));
    assert_eq!(Open(1).unroll_right(Closed(1)), Closed(1));

    assert_eq!(OpenOrClosed::Closed(1).pinch_left(OpenOrClosed::Open(1)), Open(1));
    assert_eq!(OpenOrClosed::Open(1).unroll_right(OpenOrClosed::Closed(1)), Closed(1));
}

#[test]
fn closed_bounded_intervals_are_bounded() {
    assert!(is_bounded(&Interval::closed_unchecked(0, 1)));
    assert!(is_bounded(&Interval::open_unchecked(0, 1)));
    assert!(is_bounded(&Interval::lorc_unchecked(0, 1)));
    assert!(is_bounded(&Interval::lcro_unchecked(0, 1)));
}

#[test]
fn right_bounded_intervals_over_unsigned_integers_are_bounded() {
    assert!(is_bounded(&Interval::right_open(3u8)));
    assert!(is_bounded(&Interval::right_closed(3u16)));
    assert!(is_bounded(&Interval::right_open(3u32)));
    assert!(is_bounded(&Interval::right_closed(3u64)));
    assert!(is_bounded(&Interval::right_open(3u128)));
    assert!(is_bounded(&Interval::right_closed(3usize)));
}
