//! The round boundary inside which every body is kept.

use vstd::prelude::*;
use macroquad::color::colors::GRAY;
use macroquad::color::Color;
use macroquad::math::Vec2;
use crate::algebra::{length, minus, plus, scaled, shrunk, whole, Scalar};
use crate::algebra::{lane_below, vec_difference, vec_length, vec_product, vec_quotient, vec_sum};
use crate::algebra::{whole_vec, zero_vec};
use crate::motion::Motion;
use crate::shape::{shows, Polygon, CIRCLE_SIDES};

verus! {

/// `macroquad::color::colors::GRAY`, the colour of the boundary where none is
/// chosen. Nothing is claimed of it.
#[verifier::external_body]
fn gray() -> Color {
    GRAY
}

/// A round boundary. The centre of a body may be as far from `position` as
/// `radius - offset`, which keeps the body's rim inside the circle drawn.
#[derive(Clone, Copy, Debug)]
pub struct Constraint {
    pub position: Vec2,
    pub radius: Scalar,
    pub offset: Scalar,
    pub color: Color,
}

impl Constraint {
    /// What is asked of a boundary: `radius > offset >= 0`.
    pub open spec fn well_formed(self) -> bool {
        lane_below(self.offset@, self.radius@) && !lane_below(self.offset@, zero_vec())
    }

    /// The greatest distance from the centre at which a point is left alone.
    pub open spec fn limit(self) -> Vec2 {
        vec_difference(self.radius@, self.offset@)
    }

    /// The vector from the centre to `point`.
    pub open spec fn arm(self, point: Vec2) -> Vec2 {
        vec_difference(point, self.position)
    }

    /// Whether `point` is beyond the limit.
    pub open spec fn outside(self, point: Vec2) -> bool {
        lane_below(self.limit(), vec_length(self.arm(point)))
    }

    /// `point` brought back inside: one beyond the limit is put on the limit,
    /// in the same direction from the centre; any other stays. A point at
    /// distance zero has no direction, and stays too.
    pub open spec fn clamped(self, point: Vec2) -> Vec2 {
        let arm = self.arm(point);
        let distance = vec_length(arm);
        if self.outside(point) && lane_below(zero_vec(), distance) {
            vec_sum(self.position, vec_product(vec_quotient(arm, distance), self.limit()))
        } else {
            point
        }
    }

    /// A boundary round `position`.
    pub fn new(position: Vec2, radius: Scalar, offset: Scalar, color: Color) -> (c: Constraint)
        ensures
            c.position == position,
            c.radius == radius,
            c.offset == offset,
            c.color == color,
    {
        Constraint { position, radius, offset, color }
    }

    /// Whether `radius > offset >= 0`.
    pub fn is_well_formed(&self) -> (r: bool)
        ensures
            r == self.well_formed(),
    {
        self.offset.below(self.radius) && !self.offset.below(Scalar::whole(0))
    }

    /// The circle that shows the boundary.
    pub fn draw(&self) -> (p: Polygon)
        ensures
            shows(p, self.position, self.radius, self.color),
    {
        Polygon {
            center: self.position,
            sides: CIRCLE_SIDES,
            radius: self.radius,
            rotation: Scalar::whole(0),
            color: self.color,
        }
    }

    /// Brings the position of `motion` back inside the boundary. Its previous
    /// position and its acceleration are left as they are.
    pub fn clamp(&self, motion: &mut Motion)
        ensures
            *final(motion) == old(motion).moved_to(self.clamped(old(motion).position)),
            !self.outside(old(motion).position) ==> *final(motion) == *old(motion),
    {
        let arm = minus(motion.position, self.position);
        let distance = length(arm);
        let limit = self.radius.minus(self.offset);
        if limit.below(distance) && Scalar::whole(0).below(distance) {
            motion.position = plus(self.position, scaled(shrunk(arm, distance), limit));
        }
    }
}

impl Default for Constraint {
    /// A grey boundary of radius 400 round (800, 450), with an offset of 25.
    fn default() -> (c: Constraint)
        ensures
            c.position == whole_vec(800, 450),
            c.radius@ == whole_vec(400, 400),
            c.offset@ == whole_vec(25, 25),
    {
        Constraint::new(whole(800, 450), Scalar::whole(400), Scalar::whole(25), gray())
    }
}

} // verus!
