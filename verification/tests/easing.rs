use libanim::easing::{EaseInOutQuart, EaseInOutQuint, Linear};
use libanim::BEZIER_PRECISION_ROUNDS;

#[test]
fn strategies_are_copied_freely() {
    let quart = EaseInOutQuart;
    let quint = EaseInOutQuint;
    let linear = Linear;
    let (a, b) = (quart, quart);
    let (c, d) = (quint, quint);
    let (e, f) = (linear, linear);
    assert_eq!(a, b);
    assert_eq!(c, d);
    assert_eq!(e, f);
}

#[test]
fn strategies_hold_no_state() {
    assert_eq!(std::mem::size_of::<EaseInOutQuart>(), 0);
    assert_eq!(std::mem::size_of::<EaseInOutQuint>(), 0);
    assert_eq!(std::mem::size_of::<Linear>(), 0);
}

#[test]
fn a_curve_is_stroked_in_35_segments() {
    assert_eq!(BEZIER_PRECISION_ROUNDS, 35);
}
