//! What the solver hands to whoever draws.

use vstd::prelude::*;
use macroquad::color::Color;
use macroquad::math::Vec2;
use crate::algebra::{zero_vec, Scalar};

verus! {

/// `macroquad::color::Color`. The solver hands a colour on as it got it, and
/// never looks at it.
#[verifier::external_type_specification]
#[verifier::external_body]
pub struct ExColor(Color);

/// The number of sides with which a circle is drawn.
pub const CIRCLE_SIDES: u8 = 100;

/// A filled regular polygon: what is asked of the renderer for one circle.
#[derive(Clone, Copy, Debug)]
pub struct Polygon {
    pub center: Vec2,
    pub sides: u8,
    pub radius: Scalar,
    /// The turn of the first corner, in degrees.
    pub rotation: Scalar,
    pub color: Color,
}

/// Whether `p` is the circle of the given centre, radius and colour: a polygon
/// of `CIRCLE_SIDES` sides that is not turned.
pub open spec fn shows(p: Polygon, center: Vec2, radius: Scalar, color: Color) -> bool {
    &&& p.center == center
    &&& p.sides == CIRCLE_SIDES
    &&& p.radius == radius
    &&& p.rotation@ == zero_vec()
    &&& p.color == color
}

} // verus!
