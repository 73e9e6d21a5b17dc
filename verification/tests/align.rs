use emath::{Align, ClosedRange, Scalar};

fn s(n: i32) -> Scalar {
    Scalar::from_int(n)
}

fn range(min: i32, max: i32) -> ClosedRange {
    ClosedRange::new(s(min), s(max))
}

const ALL: [Align; 3] = [Align::Min, Align::Center, Align::Max];

#[test]
fn align_size_within_range_examples() {
    assert_eq!(Align::Min.align_size_within_range(s(2), range(10, 20)), range(10, 12));
    assert_eq!(Align::Center.align_size_within_range(s(2), range(10, 20)), range(14, 16));
    assert_eq!(Align::Max.align_size_within_range(s(2), range(10, 20)), range(18, 20));
    assert_eq!(
        Align::Min.align_size_within_range(Scalar::INFINITY, range(10, 20)),
        ClosedRange::new(s(10), Scalar::INFINITY)
    );
    assert_eq!(
        Align::Center.align_size_within_range(Scalar::INFINITY, range(10, 20)),
        ClosedRange::new(Scalar::NEG_INFINITY, Scalar::INFINITY)
    );
    assert_eq!(
        Align::Max.align_size_within_range(Scalar::INFINITY, range(10, 20)),
        ClosedRange::new(Scalar::NEG_INFINITY, s(20))
    );
}

#[test]
fn center_of_size_two_in_ten_to_twenty() {
    let r = Align::Center.align_size_within_range(s(2), range(10, 20));
    assert_eq!(r.min, s(14));
    assert_eq!(r.max, s(16));
}

#[test]
fn center_of_infinite_size_is_the_whole_line() {
    let r = Align::Center.align_size_within_range(Scalar::Infinity, range(10, 20));
    assert_eq!(r.min, Scalar::NegInfinity);
    assert_eq!(r.max, Scalar::Infinity);
    assert_ne!(r.min, Scalar::Nan);
    assert_ne!(r.max, Scalar::Nan);
}

#[test]
fn center_of_infinite_size_in_any_range_is_the_whole_line() {
    let whole = ClosedRange::new(Scalar::NegInfinity, Scalar::Infinity);
    let ranges = [
        range(20, 10),
        ClosedRange::new(Scalar::NegInfinity, Scalar::Infinity),
        ClosedRange::new(Scalar::Infinity, Scalar::Infinity),
        ClosedRange::new(Scalar::Nan, s(0)),
        ClosedRange::new(Scalar::Finite(i64::MAX), Scalar::Finite(i64::MAX)),
    ];
    for r in ranges {
        assert_eq!(Align::Center.align_size_within_range(Scalar::Infinity, r), whole);
    }
}

#[test]
fn min_and_max_of_infinite_size() {
    let at_min = Align::Min.align_size_within_range(Scalar::Infinity, range(10, 20));
    assert_eq!(at_min.min, s(10));
    assert_eq!(at_min.max, Scalar::Infinity);
    let at_max = Align::Max.align_size_within_range(Scalar::Infinity, range(10, 20));
    assert_eq!(at_max.min, Scalar::NegInfinity);
    assert_eq!(at_max.max, s(20));
}

#[test]
fn to_factor_values() {
    assert_eq!(Align::Min.to_factor(), Scalar::Finite(0));
    assert_eq!(Align::Center.to_factor(), Scalar::Finite(32768));
    assert_eq!(Align::Max.to_factor(), Scalar::Finite(65536));
    assert_eq!(Align::Min.to_factor(), s(0));
    assert_eq!(Align::Max.to_factor(), s(1));
    let half = Align::Center.to_factor();
    assert_eq!(half.add(half), s(1));
}

#[test]
fn to_sign_values() {
    assert_eq!(Align::Min.to_sign(), s(-1));
    assert_eq!(Align::Center.to_sign(), s(0));
    assert_eq!(Align::Max.to_sign(), s(1));
    assert_eq!(Align::Min.to_sign(), Scalar::Finite(-65536));
    assert_eq!(Align::Max.to_sign(), Scalar::Finite(65536));
}

#[test]
fn default_is_min() {
    assert_eq!(Align::default(), Align::Min);
}

#[test]
fn named_aliases() {
    assert_eq!(Align::LEFT, Align::Min);
    assert_eq!(Align::TOP, Align::Min);
    assert_eq!(Align::RIGHT, Align::Max);
    assert_eq!(Align::BOTTOM, Align::Max);
    assert_ne!(Align::LEFT, Align::RIGHT);
    assert_ne!(Align::Center, Align::Min);
    assert_ne!(Align::Center, Align::Max);
}

#[test]
fn zero_size_is_a_point_of_the_range() {
    assert_eq!(Align::Min.align_size_within_range(s(0), range(10, 20)), range(10, 10));
    assert_eq!(Align::Center.align_size_within_range(s(0), range(10, 20)), range(15, 15));
    assert_eq!(Align::Max.align_size_within_range(s(0), range(10, 20)), range(20, 20));
}

#[test]
fn zero_size_in_a_single_point_is_that_point() {
    for a in ALL {
        assert_eq!(a.align_size_within_range(s(0), range(7, 7)), range(7, 7));
        assert_eq!(a.align_size_within_range(s(0), range(-7, -7)), range(-7, -7));
    }
}

#[test]
fn zero_size_in_a_range_with_an_infinite_end() {
    let up = ClosedRange::new(s(3), Scalar::Infinity);
    assert_eq!(Align::Min.align_size_within_range(s(0), up), range(3, 3));
    assert_eq!(
        Align::Center.align_size_within_range(s(0), up),
        ClosedRange::new(Scalar::Infinity, Scalar::Infinity)
    );
    assert_eq!(
        Align::Max.align_size_within_range(s(0), up),
        ClosedRange::new(Scalar::Infinity, Scalar::Infinity)
    );
    let down = ClosedRange::new(Scalar::NegInfinity, s(3));
    assert_eq!(
        Align::Center.align_size_within_range(s(0), down),
        ClosedRange::new(Scalar::NegInfinity, Scalar::NegInfinity)
    );
}

#[test]
fn zero_size_centered_where_the_ends_have_no_exact_sum() {
    let top = ClosedRange::new(Scalar::Finite(i64::MAX), Scalar::Finite(i64::MAX));
    assert_eq!(
        Align::Center.align_size_within_range(s(0), top),
        ClosedRange::new(Scalar::Infinity, Scalar::Infinity)
    );
    let line = ClosedRange::new(Scalar::NegInfinity, Scalar::Infinity);
    assert_eq!(
        Align::Center.align_size_within_range(s(0), line),
        ClosedRange::new(Scalar::Nan, Scalar::Nan)
    );
}

#[test]
fn min_starts_at_the_low_end() {
    assert_eq!(Align::Min.align_size_within_range(s(5), range(-3, 100)), range(-3, 2));
    assert_eq!(Align::Min.align_size_within_range(s(500), range(-3, 100)), range(-3, 497));
    assert_eq!(
        Align::Min.align_size_within_range(Scalar::Finite(1), ClosedRange::new(Scalar::Finite(7), s(1))),
        ClosedRange::new(Scalar::Finite(7), Scalar::Finite(8))
    );
}

#[test]
fn max_ends_at_the_high_end() {
    assert_eq!(Align::Max.align_size_within_range(s(5), range(-3, 100)), range(95, 100));
    assert_eq!(Align::Max.align_size_within_range(s(500), range(-3, 100)), range(-400, 100));
    assert_eq!(
        Align::Max.align_size_within_range(Scalar::Finite(1), ClosedRange::new(s(0), Scalar::Finite(7))),
        ClosedRange::new(Scalar::Finite(6), Scalar::Finite(7))
    );
}

#[test]
fn center_lies_evenly_about_the_midpoint() {
    let r = Align::Center.align_size_within_range(s(6), range(10, 30));
    assert_eq!(r, range(17, 23));
    let mid = range(10, 30).midpoint();
    assert_eq!(mid, s(20));
    assert_eq!(mid.sub(r.min), s(3));
    assert_eq!(r.max.sub(mid), s(3));
}

#[test]
fn center_larger_than_the_range_sticks_out_on_both_sides() {
    assert_eq!(Align::Center.align_size_within_range(s(30), range(10, 20)), range(0, 30));
}

#[test]
fn center_halves_an_odd_size_toward_zero() {
    let r = Align::Center.align_size_within_range(
        Scalar::Finite(3),
        ClosedRange::new(Scalar::Finite(0), Scalar::Finite(10)),
    );
    assert_eq!(r, ClosedRange::new(Scalar::Finite(4), Scalar::Finite(6)));
    let r = Align::Center.align_size_within_range(
        Scalar::Finite(-3),
        ClosedRange::new(Scalar::Finite(0), Scalar::Finite(10)),
    );
    assert_eq!(r, ClosedRange::new(Scalar::Finite(6), Scalar::Finite(4)));
}

#[test]
fn center_halves_an_odd_sum_of_the_ends_toward_zero() {
    let r = Align::Center.align_size_within_range(
        Scalar::Finite(2),
        ClosedRange::new(Scalar::Finite(0), Scalar::Finite(5)),
    );
    assert_eq!(r, ClosedRange::new(Scalar::Finite(1), Scalar::Finite(3)));
    let r = Align::Center.align_size_within_range(
        Scalar::Finite(2),
        ClosedRange::new(Scalar::Finite(-5), Scalar::Finite(0)),
    );
    assert_eq!(r, ClosedRange::new(Scalar::Finite(-3), Scalar::Finite(-1)));
}

#[test]
fn negative_size_is_accepted() {
    assert_eq!(Align::Min.align_size_within_range(s(-2), range(10, 20)), range(10, 8));
    assert_eq!(Align::Center.align_size_within_range(s(-2), range(10, 20)), range(16, 14));
    assert_eq!(Align::Max.align_size_within_range(s(-2), range(10, 20)), range(22, 20));
}

#[test]
fn swapped_range_is_accepted() {
    assert_eq!(Align::Min.align_size_within_range(s(2), range(20, 10)), range(20, 22));
    assert_eq!(Align::Center.align_size_within_range(s(2), range(20, 10)), range(14, 16));
    assert_eq!(Align::Max.align_size_within_range(s(2), range(20, 10)), range(8, 10));
}

#[test]
fn negative_infinite_size() {
    assert_eq!(
        Align::Min.align_size_within_range(Scalar::NegInfinity, range(10, 20)),
        ClosedRange::new(s(10), Scalar::NegInfinity)
    );
    assert_eq!(
        Align::Center.align_size_within_range(Scalar::NegInfinity, range(10, 20)),
        ClosedRange::new(Scalar::Infinity, Scalar::NegInfinity)
    );
    assert_eq!(
        Align::Max.align_size_within_range(Scalar::NegInfinity, range(10, 20)),
        ClosedRange::new(Scalar::Infinity, s(20))
    );
}

#[test]
fn infinite_size_against_an_infinite_end() {
    let up = ClosedRange::new(s(0), Scalar::Infinity);
    assert_eq!(
        Align::Max.align_size_within_range(Scalar::Infinity, up),
        ClosedRange::new(Scalar::Nan, Scalar::Infinity)
    );
    let down = ClosedRange::new(Scalar::NegInfinity, s(0));
    assert_eq!(
        Align::Min.align_size_within_range(Scalar::Infinity, down),
        ClosedRange::new(Scalar::NegInfinity, Scalar::Nan)
    );
}

#[test]
fn size_that_is_not_a_number() {
    assert_eq!(
        Align::Min.align_size_within_range(Scalar::Nan, range(10, 20)),
        ClosedRange::new(s(10), Scalar::Nan)
    );
    assert_eq!(
        Align::Center.align_size_within_range(Scalar::Nan, range(10, 20)),
        ClosedRange::new(Scalar::Nan, Scalar::Nan)
    );
    assert_eq!(
        Align::Max.align_size_within_range(Scalar::Nan, range(10, 20)),
        ClosedRange::new(Scalar::Nan, s(20))
    );
}

#[test]
fn an_end_beyond_the_finite_range_is_infinite() {
    let top = ClosedRange::new(Scalar::Finite(i64::MAX), Scalar::Finite(i64::MAX));
    assert_eq!(
        Align::Min.align_size_within_range(Scalar::Finite(1), top),
        ClosedRange::new(Scalar::Finite(i64::MAX), Scalar::Infinity)
    );
    let bottom = ClosedRange::new(Scalar::Finite(i64::MIN), Scalar::Finite(i64::MIN));
    assert_eq!(
        Align::Max.align_size_within_range(Scalar::Finite(1), bottom),
        ClosedRange::new(Scalar::NegInfinity, Scalar::Finite(i64::MIN))
    );
}

#[test]
fn center_of_the_largest_size_about_a_finite_midpoint_is_finite() {
    let r = Align::Center.align_size_within_range(
        Scalar::Finite(i64::MAX),
        ClosedRange::new(Scalar::Finite(i64::MIN), Scalar::Finite(0)),
    );
    assert_eq!(
        r,
        ClosedRange::new(Scalar::Finite(-9223372036854775807), Scalar::Finite(-1))
    );
}
