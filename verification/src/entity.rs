//! A round body, and how two of them are pushed apart.

use vstd::prelude::*;
use macroquad::color::Color;
use macroquad::math::Vec2;
use crate::algebra::{length, minus, plus, shrunk, times, whole, Scalar};
use crate::algebra::{lane_below, vec_difference, vec_length, vec_product, vec_quotient, vec_sum};
use crate::algebra::{whole_vec, zero_vec};
use crate::motion::Motion;
use crate::shape::{shows, Polygon, CIRCLE_SIDES};

verus! {

/// A round body. Its radius and colour stay as they were made; only its
/// motion changes.
#[derive(Clone, Copy, Debug)]
pub struct Entity {
    pub radius: Scalar,
    pub color: Color,
    pub motion: Motion,
}

impl Entity {
    /// This body with another motion.
    pub open spec fn with_motion(self, motion: Motion) -> Entity {
        Entity { radius: self.radius, color: self.color, motion }
    }

    /// This body, its centre moved to `position`. Nothing else changes: not
    /// the previous position either, so the move counts as velocity.
    pub open spec fn at(self, position: Vec2) -> Entity {
        self.with_motion(self.motion.moved_to(position))
    }

    /// The vector from the centre of `other` to the centre of this body.
    pub open spec fn axis(self, other: Entity) -> Vec2 {
        vec_difference(self.motion.position, other.motion.position)
    }

    /// The distance between the two centres.
    pub open spec fn distance(self, other: Entity) -> Vec2 {
        vec_length(self.axis(other))
    }

    /// The least distance at which the two bodies do not overlap: the sum of
    /// their radii.
    pub open spec fn min_separation(self, other: Entity) -> Vec2 {
        vec_sum(self.radius@, other.radius@)
    }

    /// Whether the two bodies overlap: their centres are closer than the sum
    /// of their radii.
    pub open spec fn overlaps(self, other: Entity) -> bool {
        lane_below(self.distance(other), self.min_separation(other))
    }

    /// The direction in which this body is pushed away from `other`: the axis
    /// divided by its length. Two bodies whose centres coincide have no axis,
    /// and are parted along `x`.
    pub open spec fn direction(self, other: Entity) -> Vec2 {
        if lane_below(zero_vec(), self.distance(other)) {
            vec_quotient(self.axis(other), self.distance(other))
        } else {
            whole_vec(1, 0)
        }
    }

    /// The correction of an overlapping pair: half of the overlap, along the
    /// direction. This body moves by it, `other` by its opposite.
    pub open spec fn push(self, other: Entity) -> Vec2 {
        let overlap = vec_difference(self.min_separation(other), self.distance(other));
        vec_product(vec_quotient(overlap, whole_vec(2, 2)), self.direction(other))
    }

    /// The pair after its collision has been resolved. A pair that does not
    /// overlap stays as it is.
    pub open spec fn parted(self, other: Entity) -> (Entity, Entity) {
        if self.overlaps(other) {
            (
                self.at(vec_sum(self.motion.position, self.push(other))),
                other.at(vec_difference(other.motion.position, self.push(other))),
            )
        } else {
            (self, other)
        }
    }

    /// A body of the given radius and colour.
    pub fn new(radius: Scalar, color: Color, motion: Motion) -> (e: Entity)
        ensures
            e.radius == radius,
            e.color == color,
            e.motion == motion,
    {
        Entity { radius, color, motion }
    }

    /// The filled circle that shows this body.
    pub fn draw(&self) -> (p: Polygon)
        ensures
            shows(p, self.motion.position, self.radius, self.color),
    {
        Polygon {
            center: self.motion.position,
            sides: CIRCLE_SIDES,
            radius: self.radius,
            rotation: Scalar::whole(0),
            color: self.color,
        }
    }

    /// Resolves the collision of this body with `other`: where they overlap,
    /// each is moved by half of the overlap, away from the other.
    pub fn separate(&mut self, other: &mut Entity)
        ensures
            (*final(self), *final(other)) == old(self).parted(*old(other)),
            !old(self).overlaps(*old(other)) ==> {
                &&& *final(self) == *old(self)
                &&& *final(other) == *old(other)
            },
    {
        let axis = minus(self.motion.position, other.motion.position);
        let distance = length(axis);
        let min_separation = self.radius.plus(other.radius);
        if distance.below(min_separation) {
            let direction = if Scalar::whole(0).below(distance) {
                shrunk(axis, distance)
            } else {
                whole(1, 0)
            };
            let overlap = min_separation.minus(distance);
            let push = times(overlap.over(Scalar::whole(2)).lanes(), direction);
            self.motion.position = plus(self.motion.position, push);
            other.motion.position = minus(other.motion.position, push);
        }
    }
}

} // verus!
