//! The state of one moving point, and its Verlet step.

use vstd::prelude::*;
use macroquad::math::Vec2;
use crate::algebra::{minus, plus, scaled, whole, Scalar};
use crate::algebra::{vec_difference, vec_product, vec_sum, zero_vec};

verus! {

/// Where a point is, where it was one step ago, and what has been asked of it
/// since. The velocity is not stored: it is `position - previous_position`.
#[derive(Clone, Copy, Debug)]
pub struct Motion {
    pub position: Vec2,
    pub previous_position: Vec2,
    pub acceleration: Vec2,
}

impl Motion {
    /// The displacement over the last step.
    pub open spec fn velocity(self) -> Vec2 {
        vec_difference(self.position, self.previous_position)
    }

    /// The motion with its position set to `position`, and nothing else
    /// changed.
    pub open spec fn moved_to(self, position: Vec2) -> Motion {
        Motion {
            position,
            previous_position: self.previous_position,
            acceleration: self.acceleration,
        }
    }

    /// The motion after `acceleration` has been added to what was asked.
    pub open spec fn accelerated(self, acceleration: Vec2) -> Motion {
        Motion {
            position: self.position,
            previous_position: self.previous_position,
            acceleration: vec_sum(self.acceleration, acceleration),
        }
    }

    /// The motion one step of length `dt` later. The acceleration is added
    /// whole; the velocity is scaled by `dt` twice.
    pub open spec fn stepped(self, dt: Vec2) -> Motion {
        Motion {
            position: vec_sum(
                self.position,
                vec_sum(self.acceleration, vec_product(vec_product(self.velocity(), dt), dt)),
            ),
            previous_position: self.position,
            acceleration: zero_vec(),
        }
    }

    /// A point at rest at `position`.
    pub fn new(position: Vec2) -> (m: Motion)
        ensures
            m.position == position,
            m.previous_position == position,
            m.acceleration == zero_vec(),
    {
        Motion { position, previous_position: position, acceleration: whole(0, 0) }
    }

    /// Adds `acceleration` to what the next step will apply.
    pub fn accelerate(&mut self, acceleration: Vec2)
        ensures
            *final(self) == old(self).accelerated(acceleration),
    {
        self.acceleration = plus(self.acceleration, acceleration);
    }

    /// Takes one step of length `dt`, and forgets the acceleration.
    pub fn update_position(&mut self, dt: Scalar)
        ensures
            *final(self) == old(self).stepped(dt@),
    {
        let velocity = minus(self.position, self.previous_position);
        self.previous_position = self.position;
        let drift = scaled(scaled(velocity, dt), dt);
        self.position = plus(self.position, plus(self.acceleration, drift));
        self.acceleration = whole(0, 0);
    }
}

} // verus!
