use macroquad::color::colors::{GRAY, RED};
use macroquad::math::Vec2;
use verlet::algebra::Scalar;
use verlet::constraint::Constraint;
use verlet::motion::Motion;

fn num(v: f32) -> Scalar {
    Scalar::from_lane(Vec2::new(v, 0.0))
}

fn ring(center: Vec2, radius: f32, offset: f32) -> Constraint {
    Constraint::new(center, num(radius), num(offset), GRAY)
}

fn clamped(c: &Constraint, at: Vec2) -> Vec2 {
    let mut m = Motion::new(at);
    c.clamp(&mut m);
    m.position
}

#[test]
fn new_constraint_keeps_what_it_is_given() {
    let c = Constraint::new(Vec2::new(1.0, 2.0), num(100.0), num(25.0), RED);
    assert_eq!(c.position, Vec2::new(1.0, 2.0));
    assert_eq!(c.radius.lanes(), Vec2::splat(100.0));
    assert_eq!(c.offset.lanes(), Vec2::splat(25.0));
    assert_eq!(c.color, RED);
}

#[test]
fn default_constraint() {
    let c = Constraint::default();
    assert_eq!(c.position, Vec2::new(800.0, 450.0));
    assert_eq!(c.radius.lanes(), Vec2::splat(400.0));
    assert_eq!(c.offset.lanes(), Vec2::splat(25.0));
    assert_eq!(c.color, GRAY);
    assert!(c.is_well_formed());
}

#[test]
fn a_point_outside_is_put_on_the_limit() {
    let c = ring(Vec2::new(0.0, 0.0), 100.0, 25.0);
    assert_eq!(clamped(&c, Vec2::new(200.0, 0.0)), Vec2::new(75.0, 0.0));
    assert_eq!(clamped(&c, Vec2::new(0.0, -300.0)), Vec2::new(0.0, -75.0));
    assert_eq!(clamped(&c, Vec2::new(60.0, 80.0)), Vec2::new(45.0, 60.0));
}

#[test]
fn the_limit_is_measured_from_the_centre() {
    let c = ring(Vec2::new(800.0, 450.0), 400.0, 25.0);
    assert_eq!(clamped(&c, Vec2::new(800.0, 1450.0)), Vec2::new(800.0, 825.0));
    assert_eq!(clamped(&c, Vec2::new(0.0, 450.0)), Vec2::new(425.0, 450.0));
}

#[test]
fn a_point_inside_stays() {
    let c = ring(Vec2::new(0.0, 0.0), 100.0, 25.0);
    assert_eq!(clamped(&c, Vec2::new(30.0, 40.0)), Vec2::new(30.0, 40.0));
    assert_eq!(clamped(&c, Vec2::new(-0.125, 0.5)), Vec2::new(-0.125, 0.5));
}

#[test]
fn a_point_on_the_limit_stays() {
    let c = ring(Vec2::new(0.0, 0.0), 100.0, 25.0);
    assert_eq!(clamped(&c, Vec2::new(75.0, 0.0)), Vec2::new(75.0, 0.0));
    assert_eq!(clamped(&c, Vec2::new(45.0, -60.0)), Vec2::new(45.0, -60.0));
}

#[test]
fn the_point_at_the_centre_stays() {
    let c = ring(Vec2::new(5.0, 5.0), 100.0, 25.0);
    assert_eq!(clamped(&c, Vec2::new(5.0, 5.0)), Vec2::new(5.0, 5.0));
    let inverted = ring(Vec2::new(5.0, 5.0), 10.0, 25.0);
    let at = clamped(&inverted, Vec2::new(5.0, 5.0));
    assert_eq!(at, Vec2::new(5.0, 5.0));
}

#[test]
fn clamping_keeps_every_point_within_the_limit() {
    let c = ring(Vec2::new(800.0, 450.0), 400.0, 25.0);
    let mut k = 0;
    while k < 400 {
        let angle = k as f32 * 0.37;
        let reach = 1.0 + k as f32 * 3.1;
        let at = c.position + Vec2::new(angle.cos(), angle.sin()) * reach;
        let after = clamped(&c, at);
        assert!((after - c.position).length() <= 375.0 + 0.001);
        if reach <= 374.0 {
            assert_eq!(after, at);
        }
        k += 1;
    }
}

#[test]
fn clamping_leaves_the_previous_position_and_the_acceleration() {
    let c = ring(Vec2::new(0.0, 0.0), 100.0, 25.0);
    let mut m = Motion::new(Vec2::new(200.0, 0.0));
    m.previous_position = Vec2::new(190.0, 1.0);
    m.accelerate(Vec2::new(0.0, 10.0));
    c.clamp(&mut m);
    assert_eq!(m.position, Vec2::new(75.0, 0.0));
    assert_eq!(m.previous_position, Vec2::new(190.0, 1.0));
    assert_eq!(m.acceleration, Vec2::new(0.0, 10.0));
}

#[test]
fn well_formed_asks_radius_above_offset_and_offset_not_negative() {
    assert!(ring(Vec2::new(0.0, 0.0), 100.0, 25.0).is_well_formed());
    assert!(ring(Vec2::new(0.0, 0.0), 100.0, 0.0).is_well_formed());
    assert!(!ring(Vec2::new(0.0, 0.0), 25.0, 25.0).is_well_formed());
    assert!(!ring(Vec2::new(0.0, 0.0), 10.0, 25.0).is_well_formed());
    assert!(!ring(Vec2::new(0.0, 0.0), 100.0, -1.0).is_well_formed());
    assert!(!ring(Vec2::new(0.0, 0.0), -5.0, -10.0).is_well_formed());
    assert!(!ring(Vec2::new(0.0, 0.0), f32::NAN, 25.0).is_well_formed());
    assert!(!ring(Vec2::new(0.0, 0.0), 100.0, f32::NAN).is_well_formed());
}

#[test]
fn the_boundary_is_drawn_at_its_full_radius() {
    let c = Constraint::new(Vec2::new(800.0, 450.0), num(400.0), num(25.0), RED);
    let p = c.draw();
    assert_eq!(p.center, Vec2::new(800.0, 450.0));
    assert_eq!(p.sides, 100);
    assert_eq!(p.radius.lanes(), Vec2::splat(400.0));
    assert_eq!(p.rotation.lanes(), Vec2::splat(0.0));
    assert_eq!(p.color, RED);
}
