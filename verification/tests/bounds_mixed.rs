use intervals::bounds::{
    Bound, Closed, LimitPoint, NoBound, Open, OpenOrClosed, Pinch, ProperBound, Unroll,
};

// OpenOrClosed::Open
#[test]
fn test_open_core_properties() {
    for x in [-2.0, -1.0, 0.0, 1.0, 2.0] {
        let a = OpenOrClosed::Open(x);

        assert!(a.is_open());
        assert!(!a.is_closed());

        assert_eq!(a.proper_value(), &x);
        assert_eq!(a.value().unwrap(), &x);
        assert_eq!(a.with_limit_point(), Closed(x));
    }
}

#[test]
fn test_open_pinch_nobound() {
    let a = OpenOrClosed::Open(0.0f64);

    assert_eq!(a.pinch_left(NoBound::new()), a);
    assert_eq!(a.pinch_right(NoBound::new()), a);
}

#[test]
fn test_open_pinch_open() {
    let a = OpenOrClosed::Open(0.0f64);

    for x in [-2.0, -1.0, 0.0, 1.0, 2.0] {
        assert_eq!(a.pinch_left(Open(x)), Open(x.max(0.0)));
        assert_eq!(a.pinch_right(Open(x)), Open(x.min(0.0)));

        assert_eq!(a.pinch_left(OpenOrClosed::Open(x)), Open(x.max(0.0)));
        assert_eq!(a.pinch_right(OpenOrClosed::Open(x)), Open(x.min(0.0)));
    }
}

#[test]
fn test_open_pinch_closed() {
    let a = OpenOrClosed::Open(0.0f64);

    for x in [-2.0, -1.0, 0.0, 1.0, 2.0] {
        if x <= 0.0 {
            assert_eq!(a.pinch_left(Closed(x)), Open(0.0));
            assert_eq!(a.pinch_left(OpenOrClosed::Closed(x)), Open(0.0));
        } else {
            assert_eq!(a.pinch_left(Closed(x)), Closed(x));
            assert_eq!(a.pinch_left(OpenOrClosed::Closed(x)), Closed(x));
        }

        if x >= 0.0 {
            assert_eq!(a.pinch_right(Closed(x)), Open(0.0));
            assert_eq!(a.pinch_right(OpenOrClosed::Closed(x)), Open(0.0));
        } else {
            assert_eq!(a.pinch_right(Closed(x)), Closed(x));
            assert_eq!(a.pinch_right(OpenOrClosed::Closed(x)), Closed(x));
        }
    }
}

#[test]
fn test_open_unroll_nobound() {
    let a = OpenOrClosed::Open(0.0f64);

    assert_eq!(a.unroll_left(NoBound::new()), NoBound::new());
    assert_eq!(a.unroll_right(NoBound::new()), NoBound::new());
}

#[test]
fn test_open_unroll_open() {
    let a = OpenOrClosed::Open(0.0f64);

    for x in [-2.0, -1.0, 0.0, 1.0, 2.0] {
        assert_eq!(a.unroll_left(Open(x)), Open(x.min(0.0)));
        assert_eq!(a.unroll_right(Open(x)), Open(x.max(0.0)));

        assert_eq!(a.unroll_left(OpenOrClosed::Open(x)), Open(x.min(0.0)));
        assert_eq!(a.unroll_right(OpenOrClosed::Open(x)), Open(x.max(0.0)));
    }
}

#[test]
fn test_open_unroll_closed() {
    let a = OpenOrClosed::Open(0.0f64);

    for x in [-2.0, -1.0, 0.0, 1.0, 2.0] {
        if x <= 0.0 {
            assert_eq!(a.unroll_left(Closed(x)), Closed(x));
            assert_eq!(a.unroll_left(OpenOrClosed::Closed(x)), Closed(x));
        } else {
            assert_eq!(a.unroll_left(Closed(x)), Open(0.0));
            assert_eq!(a.unroll_left(OpenOrClosed::Closed(x)), Open(0.0));
        }

        if x >= 0.0 {
            assert_eq!(a.unroll_right(Closed(x)), Closed(x));
            assert_eq!(a.unroll_right(OpenOrClosed::Closed(x)), Closed(x));
        } else {
            assert_eq!(a.unroll_right(Closed(x)), Open(0.0));
            assert_eq!(a.unroll_right(OpenOrClosed::Closed(x)), Open(0.0));
        }
    }
}

// OpenOrClosed::Closed
#[test]
fn test_closed_core_properties() {
    for x in [-2.0, -1.0, 0.0, 1.0, 2.0] {
        let a = OpenOrClosed::Closed(x);

        assert!(!a.is_open());
        assert!(a.is_closed());

        assert_eq!(a.proper_value(), &x);
        assert_eq!(a.value().unwrap(), &x);
        assert_eq!(a.with_limit_point(), a);
    }
}

#[test]
fn test_closed_pinch_nobound() {
    let a = OpenOrClosed::Closed(0.0f64);

    assert_eq!(a.pinch_left(NoBound::new()), a);
    assert_eq!(a.pinch_right(NoBound::new()), a);
}

#[test]
fn test_closed_pinch_closed() {
    let a = OpenOrClosed::Closed(0.0f64);

    for x in [-2.0, -1.0, 0.0, 1.0, 2.0] {
        assert_eq!(a.pinch_left(Closed(x)), Closed(x.max(0.0)));
        assert_eq!(a.pinch_right(Closed(x)), Closed(x.min(0.0)));

        assert_eq!(a.pinch_left(OpenOrClosed::Closed(x)), Closed(x.max(0.0)));
        assert_eq!(a.pinch_right(OpenOrClosed::Closed(x)), Closed(x.min(0.0)));
    }
}

#[test]
fn test_closed_pinch_open() {
    let a = OpenOrClosed::Closed(0.0f64);

    for x in [-2.0, -1.0, 0.0, 1.0, 2.0] {
        if x < 0.0 {
            assert_eq!(a.pinch_left(Open(x)), Closed(0.0));
            assert_eq!(a.pinch_left(OpenOrClosed::Open(x)), Closed(0.0));
        } else {
            assert_eq!(a.pinch_left(Open(x)), Open(x));
            assert_eq!(a.pinch_left(OpenOrClosed::Open(x)), Open(x));
        }

        if x > 0.0 {
            assert_eq!(a.pinch_right(Open(x)), Closed(0.0));
            assert_eq!(a.pinch_right(OpenOrClosed::Open(x)), Closed(0.0));
        } else {
            assert_eq!(a.pinch_right(Open(x)), Open(x));
            assert_eq!(a.pinch_right(OpenOrClosed::Open(x)), Open(x));
        }
    }
}

#[test]
fn test_closed_unroll_nobound() {
    let a = OpenOrClosed::Closed(0.0f64);

    assert_eq!(a.unroll_left(NoBound::new()), NoBound::new());
    assert_eq!(a.unroll_right(NoBound::new()), NoBound::new());
}

#[test]
fn test_closed_unroll_closed() {
    let a = OpenOrClosed::Closed(0.0f64);

    for x in [-2.0, -1.0, 0.0, 1.0, 2.0] {
        assert_eq!(a.unroll_left(Closed(x)), Closed(x.min(0.0)));
        assert_eq!(a.unroll_right(Closed(x)), Closed(x.max(0.0)));

        assert_eq!(a.unroll_left(OpenOrClosed::Closed(x)), Closed(x.min(0.0)));
        assert_eq!(a.unroll_right(OpenOrClosed::Closed(x)), Closed(x.max(0.0)));
    }
}

#[test]
fn test_closed_unroll_open() {
    let a = OpenOrClosed::Closed(0.0f64);

    for x in [-2.0, -1.0, 0.0, 1.0, 2.0] {
        if x < 0.0 {
            assert_eq!(a.unroll_left(Open(x)), Open(x));
            assert_eq!(a.unroll_left(OpenOrClosed::Open(x)), Open(x));
        } else {
            assert_eq!(a.unroll_left(Open(x)), Closed(0.0));
            assert_eq!(a.unroll_left(OpenOrClosed::Open(x)), Closed(0.0));
        }

        if x > 0.0 {
            assert_eq!(a.unroll_right(Open(x)), Open(x));
            assert_eq!(a.unroll_right(OpenOrClosed::Open(x)), Open(x));
        } else {
            assert_eq!(a.unroll_right(Open(x)), Closed(0.0));
            assert_eq!(a.unroll_right(OpenOrClosed::Open(x)), Closed(0.0));
        }
    }
}
