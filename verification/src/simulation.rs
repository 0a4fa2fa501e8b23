//! The population, its boundary and its solver, kept together.

use vstd::prelude::*;
use macroquad::color::Color;
use macroquad::math::{Vec2, Vec4, Vec4Swizzles};
use macroquad::rand::gen_range;
use crate::algebra::{plus, zero_vec, Scalar};
use crate::constraint::Constraint;
use crate::entity::Entity;
use crate::motion::Motion;
use crate::resolver::{ticked, Resolver};
use crate::shape::{shows, Polygon};

verus! {

/// `macroquad::math::Vec4`, four lanes `x`, `y`, `z` and `w`.
#[verifier::external_type_specification]
#[verifier::external_body]
pub struct ExVec4(Vec4);

/// The vector that holds the lanes `x` and `y` of `v`.
pub uninterp spec fn front_lanes(v: Vec4) -> Vec2;

/// The vector that holds the lanes `z` and `w` of `v`.
pub uninterp spec fn back_lanes(v: Vec4) -> Vec2;

/// `Vec4Swizzles::xy` of `macroquad::math`: the first two lanes of `v`, which
/// are known as `front_lanes`.
#[verifier::external_body]
fn front(v: Vec4) -> (r: Vec2)
    ensures
        r == front_lanes(v),
{
    v.xy()
}

/// `Vec4Swizzles::zw` of `macroquad::math`: the last two lanes of `v`, which
/// are known as `back_lanes`.
#[verifier::external_body]
fn back(v: Vec4) -> (r: Vec2)
    ensures
        r == back_lanes(v),
{
    v.zw()
}

/// `macroquad::rand::gen_range`, called once for lane `x` and then once for
/// lane `y`, each time with that lane of `low` and of `high`. The two numbers
/// come from the generator that the whole process shares, so nothing is
/// claimed of the point they make.
#[verifier::external_body]
fn random_between(low: Vec2, high: Vec2) -> (r: Vec2) {
    Vec2::new(gen_range(low.x, high.x), gen_range(low.y, high.y))
}

/// Whether `e` is a body of the given radius and colour that does not move
/// and of which nothing is asked.
pub open spec fn fresh(e: Entity, radius: Scalar, color: Color) -> bool {
    &&& e.radius == radius
    &&& e.color == color
    &&& e.motion.previous_position == e.motion.position
    &&& e.motion.acceleration == zero_vec()
}

/// A population with its boundary and its solver.
pub struct App {
    pub background_color: Color,
    pub entities: Vec<Entity>,
    pub border: Constraint,
    pub resolver: Resolver,
}

impl App {
    /// A population of `entity_count` bodies at rest, each somewhere in
    /// `spawn_area`: a rectangle given by its corner, in the lanes `x` and
    /// `y`, and its size, in the lanes `z` and `w`.
    pub fn new(
        background_color: Color,
        border: Constraint,
        spawn_area: Vec4,
        resolver: Resolver,
        entity_radius: Scalar,
        entity_color: Color,
        entity_count: usize,
    ) -> (app: App)
        ensures
            app.background_color == background_color,
            app.border == border,
            app.resolver == resolver,
            app.entities@.len() == entity_count,
            forall|k: int|
                0 <= k < entity_count ==> fresh(
                    #[trigger] app.entities@[k],
                    entity_radius,
                    entity_color,
                ),
    {
        let entities = Self::generate_entities(
            front(spawn_area),
            back(spawn_area),
            entity_radius,
            entity_color,
            entity_count,
        );
        App { background_color, entities, border, resolver }
    }

    /// Moves the population on by one tick of length `dt`.
    pub fn update(&mut self, dt: Scalar)
        ensures
            final(self).entities@ == ticked(
                old(self).entities@,
                old(self).resolver.gravity,
                old(self).border,
                dt@,
            ),
            final(self).background_color == old(self).background_color,
            final(self).border == old(self).border,
            final(self).resolver == old(self).resolver,
    {
        self.resolver.update(&mut self.entities, &self.border, dt);
    }

    /// What is to be drawn, in the order of drawing: the boundary, then each
    /// body.
    pub fn draw(&self) -> (list: Vec<Polygon>)
        ensures
            list@.len() == self.entities@.len() + 1,
            shows(list@[0], self.border.position, self.border.radius, self.border.color),
            forall|k: int|
                0 <= k < self.entities@.len() ==> shows(
                    #[trigger] list@[k + 1],
                    self.entities@[k].motion.position,
                    self.entities@[k].radius,
                    self.entities@[k].color,
                ),
    {
        let mut list: Vec<Polygon> = Vec::new();
        list.push(self.border.draw());
        let n = self.entities.len();
        let mut i: usize = 0;
        while i < n
            invariant
                i <= n,
                n == self.entities@.len(),
                list@.len() == i + 1,
                shows(list@[0], self.border.position, self.border.radius, self.border.color),
                forall|k: int|
                    0 <= k < i ==> shows(
                        #[trigger] list@[k + 1],
                        self.entities@[k].motion.position,
                        self.entities@[k].radius,
                        self.entities@[k].color,
                    ),
            decreases n - i,
        {
            list.push(self.entities[i].draw());
            i += 1;
        }
        list
    }

    /// `n` bodies at rest, each at a point drawn at random from the rectangle
    /// with the corner `position` and the size `dimensions`.
    pub fn generate_entities(
        position: Vec2,
        dimensions: Vec2,
        radius: Scalar,
        color: Color,
        n: usize,
    ) -> (entities: Vec<Entity>)
        ensures
            entities@.len() == n,
            forall|k: int| 0 <= k < n ==> fresh(#[trigger] entities@[k], radius, color),
    {
        let far = plus(position, dimensions);
        let mut entities: Vec<Entity> = Vec::new();
        let mut i: usize = 0;
        while i < n
            invariant
                i <= n,
                entities@.len() == i,
                forall|k: int| 0 <= k < i ==> fresh(#[trigger] entities@[k], radius, color),
            decreases n - i,
        {
            let at = random_between(position, far);
            entities.push(Entity::new(radius, color, Motion::new(at)));
            i += 1;
        }
        entities
    }
}

} // verus!
