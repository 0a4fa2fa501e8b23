//! The arithmetic that the solver rests on.
//!
//! Every number here lives in a `Vec2`: a point or a displacement in its two
//! lanes, a single number in both lanes at once (a [`Scalar`]). The sum,
//! difference, product and quotient are the vector type's own, lane by lane.
//! Nothing in this crate looks inside a vector: what an operation returns is
//! known by a name, and by nothing else.
//!
//! The lanes are single-precision numbers of IEEE 754, which fixes the result
//! of each operation named here from its operands alone, rounding included;
//! the vector library gives the same results on every platform as long as its
//! `fast-math` feature is off, and this crate does not turn it on. The one
//! thing left open is which bits stand for a result that is no number: all
//! such lanes count as one value here, and nothing in this crate tells them
//! apart. A zero keeps its sign.

use vstd::prelude::*;
use macroquad::math::{I16Vec2, Vec2, Vec2Swizzles};

verus! {

/// `macroquad::math::Vec2`, a pair of lanes `x` and `y`. Two vectors are equal
/// here when their lanes hold the same values.
#[verifier::external_type_specification]
#[verifier::external_body]
pub struct ExVec2(Vec2);

/// The vector `a + b`: each lane is the sum of that lane of `a` and of `b`.
pub uninterp spec fn vec_sum(a: Vec2, b: Vec2) -> Vec2;

/// The vector `a - b`: each lane is that lane of `a` less that lane of `b`.
pub uninterp spec fn vec_difference(a: Vec2, b: Vec2) -> Vec2;

/// The vector `a * b`: each lane is the product of that lane of `a` and of `b`.
pub uninterp spec fn vec_product(a: Vec2, b: Vec2) -> Vec2;

/// The vector `a / b`: each lane is that lane of `a` divided by that lane of `b`.
pub uninterp spec fn vec_quotient(a: Vec2, b: Vec2) -> Vec2;

/// The Euclidean length of `v`, in both lanes.
pub uninterp spec fn vec_length(v: Vec2) -> Vec2;

/// Whether lane `x` of `a` is less than lane `x` of `b`.
pub uninterp spec fn lane_below(a: Vec2, b: Vec2) -> bool;

/// The vector whose lanes hold the whole numbers `x` and `y`.
pub uninterp spec fn whole_vec(x: int, y: int) -> Vec2;

/// The vector that holds lane `x` of `v` in both lanes.
pub uninterp spec fn first_lane(v: Vec2) -> Vec2;

/// `Vec2 + Vec2` of `macroquad::math`. The result is the sum lane by lane,
/// which is known as `vec_sum`.
#[verifier::external_body]
pub(crate) fn plus(a: Vec2, b: Vec2) -> (r: Vec2)
    ensures
        r == vec_sum(a, b),
{
    a + b
}

/// `Vec2 - Vec2` of `macroquad::math`. The result is the difference lane by
/// lane, which is known as `vec_difference`.
#[verifier::external_body]
pub(crate) fn minus(a: Vec2, b: Vec2) -> (r: Vec2)
    ensures
        r == vec_difference(a, b),
{
    a - b
}

/// `Vec2 * Vec2` of `macroquad::math`. The result is the product lane by lane,
/// which is known as `vec_product`.
#[verifier::external_body]
pub(crate) fn times(a: Vec2, b: Vec2) -> (r: Vec2)
    ensures
        r == vec_product(a, b),
{
    a * b
}

/// `Vec2 / Vec2` of `macroquad::math`. The result is the quotient lane by
/// lane, which is known as `vec_quotient`. A zero lane in `b` gives an
/// infinite lane or one that is no number; the division itself never fails.
#[verifier::external_body]
pub(crate) fn over(a: Vec2, b: Vec2) -> (r: Vec2)
    ensures
        r == vec_quotient(a, b),
{
    a / b
}

/// `Vec2::length` of `macroquad::math`, the square root of `x * x + y * y`.
/// The number it returns is put into both lanes of a vector with
/// `Vec2::splat`; that vector is known as `vec_length`.
#[verifier::external_body]
pub(crate) fn length_in_lanes(v: Vec2) -> (r: Vec2)
    ensures
        r == vec_length(v),
{
    Vec2::splat(v.length())
}

/// `<` of std on lane `x` of each vector. It is false when either lane is no
/// number. The answer is known as `lane_below`.
#[verifier::external_body]
pub(crate) fn first_below(a: Vec2, b: Vec2) -> (r: bool)
    ensures
        r == lane_below(a, b),
{
    a.x < b.x
}

/// `I16Vec2::as_vec2` of `macroquad::math`, on the pair made by
/// `I16Vec2::new`. Each lane of the result holds the whole number given for
/// it, without rounding. The vector is known as `whole_vec`.
#[verifier::external_body]
pub(crate) fn whole(x: i16, y: i16) -> (r: Vec2)
    ensures
        r == whole_vec(x as int, y as int),
{
    I16Vec2::new(x, y).as_vec2()
}

/// `Vec2Swizzles::xx` of `macroquad::math`. Both lanes of the result hold lane
/// `x` of `v`. The vector is known as `first_lane`.
#[verifier::external_body]
pub(crate) fn spread_first(v: Vec2) -> (r: Vec2)
    ensures
        r == first_lane(v),
{
    v.xx()
}

/// The vector with zero in both lanes.
pub open spec fn zero_vec() -> Vec2 {
    whole_vec(0, 0)
}

/// A single number: a radius, a distance, a time step.
///
/// It is kept in both lanes of a vector, so that a vector is scaled by the
/// lane-wise product with it. Every `Scalar` that this crate makes has the
/// same number in both lanes.
#[derive(Clone, Copy, Debug)]
pub struct Scalar {
    lanes: Vec2,
}

impl View for Scalar {
    type V = Vec2;

    /// The vector that holds the number in both lanes.
    closed spec fn view(&self) -> Vec2 {
        self.lanes
    }
}

impl Scalar {
    /// The number in lane `x` of `v`.
    pub fn from_lane(v: Vec2) -> (s: Scalar)
        ensures
            s@ == first_lane(v),
    {
        Scalar { lanes: spread_first(v) }
    }

    /// The whole number `k`.
    pub fn whole(k: i16) -> (s: Scalar)
        ensures
            s@ == whole_vec(k as int, k as int),
    {
        Scalar { lanes: whole(k, k) }
    }

    /// The vector that holds the number in both lanes.
    pub fn lanes(self) -> (v: Vec2)
        ensures
            v == self@,
    {
        self.lanes
    }

    /// `self + other`.
    pub fn plus(self, other: Scalar) -> (r: Scalar)
        ensures
            r@ == vec_sum(self@, other@),
    {
        Scalar { lanes: plus(self.lanes, other.lanes) }
    }

    /// `self - other`.
    pub fn minus(self, other: Scalar) -> (r: Scalar)
        ensures
            r@ == vec_difference(self@, other@),
    {
        Scalar { lanes: minus(self.lanes, other.lanes) }
    }

    /// `self / other`.
    pub fn over(self, other: Scalar) -> (r: Scalar)
        ensures
            r@ == vec_quotient(self@, other@),
    {
        Scalar { lanes: over(self.lanes, other.lanes) }
    }

    /// Whether `self < other`.
    pub fn below(self, other: Scalar) -> (r: bool)
        ensures
            r == lane_below(self@, other@),
    {
        first_below(self.lanes, other.lanes)
    }
}

/// The Euclidean length of `v`.
pub fn length(v: Vec2) -> (r: Scalar)
    ensures
        r@ == vec_length(v),
{
    Scalar { lanes: length_in_lanes(v) }
}

/// `v` with both lanes multiplied by `k`.
pub fn scaled(v: Vec2, k: Scalar) -> (r: Vec2)
    ensures
        r == vec_product(v, k@),
{
    times(v, k.lanes)
}

/// `v` with both lanes divided by `k`.
pub fn shrunk(v: Vec2, k: Scalar) -> (r: Vec2)
    ensures
        r == vec_quotient(v, k@),
{
    over(v, k.lanes)
}

} // verus!
