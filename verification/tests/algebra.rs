use macroquad::math::Vec2;
use verlet::algebra::{length, scaled, shrunk, Scalar};

fn num(v: f32) -> Scalar {
    Scalar::from_lane(Vec2::new(v, 0.0))
}

#[test]
fn scalar_from_lane_takes_the_first_lane() {
    let s = Scalar::from_lane(Vec2::new(3.0, 7.0));
    assert_eq!(s.lanes(), Vec2::new(3.0, 3.0));
}

#[test]
fn whole_scalar_holds_the_number_in_both_lanes() {
    assert_eq!(Scalar::whole(25).lanes(), Vec2::new(25.0, 25.0));
    assert_eq!(Scalar::whole(-3).lanes(), Vec2::new(-3.0, -3.0));
    assert_eq!(Scalar::whole(0).lanes(), Vec2::new(0.0, 0.0));
    assert_eq!(Scalar::whole(i16::MAX).lanes(), Vec2::splat(32767.0));
    assert_eq!(Scalar::whole(i16::MIN).lanes(), Vec2::splat(-32768.0));
}

#[test]
fn scalar_sum_difference_and_quotient() {
    assert_eq!(num(1.5).plus(num(2.25)).lanes(), Vec2::splat(3.75));
    assert_eq!(num(1.5).minus(num(2.25)).lanes(), Vec2::splat(-0.75));
    assert_eq!(num(5.0).over(num(2.0)).lanes(), Vec2::splat(2.5));
}

#[test]
fn scalar_order_is_strict() {
    assert!(num(1.0).below(num(2.0)));
    assert!(!num(2.0).below(num(1.0)));
    assert!(!num(2.0).below(num(2.0)));
}

#[test]
fn nothing_is_below_or_above_what_is_no_number() {
    let nan = num(f32::NAN);
    assert!(!nan.below(num(1.0)));
    assert!(!num(1.0).below(nan));
    assert!(!nan.below(nan));
}

#[test]
fn length_is_euclidean() {
    assert_eq!(length(Vec2::new(3.0, 4.0)).lanes(), Vec2::splat(5.0));
    assert_eq!(length(Vec2::new(-6.0, 8.0)).lanes(), Vec2::splat(10.0));
    assert_eq!(length(Vec2::new(0.0, 0.0)).lanes(), Vec2::splat(0.0));
}

#[test]
fn scaling_multiplies_both_lanes() {
    assert_eq!(scaled(Vec2::new(3.0, -4.0), num(0.5)), Vec2::new(1.5, -2.0));
}

#[test]
fn shrinking_divides_both_lanes() {
    assert_eq!(shrunk(Vec2::new(3.0, -4.0), num(2.0)), Vec2::new(1.5, -2.0));
}

#[test]
fn division_by_zero_does_not_fail() {
    let v = shrunk(Vec2::new(1.0, 0.0), num(0.0));
    assert!(v.x.is_infinite());
    assert!(v.y.is_nan());
}
