use macroquad::color::colors::{BLACK, GRAY, WHITE};
use macroquad::math::{Vec2, Vec4};
use verlet::algebra::Scalar;
use verlet::constraint::Constraint;
use verlet::resolver::Resolver;
use verlet::simulation::App;

fn num(v: f32) -> Scalar {
    Scalar::from_lane(Vec2::new(v, 0.0))
}

fn app(count: usize) -> App {
    App::new(
        BLACK,
        Constraint::default(),
        Vec4::new(600.0, 300.0, 200.0, 100.0),
        Resolver::default(),
        num(25.0),
        WHITE,
        count,
    )
}

#[test]
fn a_new_population_has_the_bodies_asked_for() {
    let a = app(100);
    assert_eq!(a.entities.len(), 100);
    assert_eq!(a.background_color, BLACK);
    assert_eq!(a.border.position, Vec2::new(800.0, 450.0));
    assert_eq!(a.resolver.gravity, Vec2::new(0.0, 10.0));
    for e in &a.entities {
        assert_eq!(e.radius.lanes(), Vec2::splat(25.0));
        assert_eq!(e.color, WHITE);
        assert_eq!(e.motion.previous_position, e.motion.position);
        assert_eq!(e.motion.acceleration, Vec2::new(0.0, 0.0));
    }
}

#[test]
fn a_new_population_may_be_empty() {
    let mut a = app(0);
    assert_eq!(a.entities.len(), 0);
    a.update(num(0.016));
    assert_eq!(a.entities.len(), 0);
    assert_eq!(a.draw().len(), 1);
}

#[test]
fn new_bodies_lie_in_the_spawn_area() {
    let a = app(200);
    for e in &a.entities {
        let p = e.motion.position;
        assert!(600.0 <= p.x && p.x <= 800.0);
        assert!(300.0 <= p.y && p.y <= 400.0);
    }
}

#[test]
fn bodies_made_for_a_rectangle_lie_in_it() {
    let entities = App::generate_entities(
        Vec2::new(-50.0, 10.0),
        Vec2::new(20.0, 5.0),
        num(3.0),
        GRAY,
        50,
    );
    assert_eq!(entities.len(), 50);
    for e in &entities {
        let p = e.motion.position;
        assert!(-50.0 <= p.x && p.x <= -30.0);
        assert!(10.0 <= p.y && p.y <= 15.0);
        assert_eq!(e.radius.lanes(), Vec2::splat(3.0));
        assert_eq!(e.color, GRAY);
        assert_eq!(e.motion.previous_position, p);
    }
}

#[test]
fn the_boundary_is_drawn_first_and_then_each_body_in_order() {
    let a = app(5);
    let list = a.draw();
    assert_eq!(list.len(), 6);
    assert_eq!(list[0].center, Vec2::new(800.0, 450.0));
    assert_eq!(list[0].radius.lanes(), Vec2::splat(400.0));
    assert_eq!(list[0].color, GRAY);
    assert_eq!(list[0].sides, 100);
    let mut k = 0;
    while k < 5 {
        assert_eq!(list[k + 1].center, a.entities[k].motion.position);
        assert_eq!(list[k + 1].radius.lanes(), Vec2::splat(25.0));
        assert_eq!(list[k + 1].color, WHITE);
        assert_eq!(list[k + 1].sides, 100);
        assert_eq!(list[k + 1].rotation.lanes(), Vec2::splat(0.0));
        k += 1;
    }
}

#[test]
fn an_update_is_one_tick_of_the_solver() {
    let mut a = app(20);
    let mut expected = a.entities.clone();
    a.resolver.update(&mut expected, &a.border, num(0.016));
    a.update(num(0.016));
    let mut k = 0;
    while k < 20 {
        assert_eq!(a.entities[k].motion.position, expected[k].motion.position);
        assert_eq!(a.entities[k].motion.previous_position, expected[k].motion.previous_position);
        k += 1;
    }
    assert_eq!(a.border.radius.lanes(), Vec2::splat(400.0));
    assert_eq!(a.resolver.gravity, Vec2::new(0.0, 10.0));
}
