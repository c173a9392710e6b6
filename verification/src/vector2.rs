use vstd::prelude::*;

use crate::scalar::fits_i64;
use crate::vector3::Vector3;
use crate::vector3::Vector3View;
use crate::vector4::Vector4;
use crate::vector4::Vector4View;

verus! {

/// Mathematical model of a 2-component vector: a pair of unbounded integers.
pub struct Vector2View {
    pub x: int,
    pub y: int,
}

impl Vector2View {
    /// The vector with every component zero.
    pub open spec fn zero() -> Vector2View {
        Vector2View { x: 0, y: 0 }
    }

    /// Component-wise sum.
    pub open spec fn vadd(self, other: Vector2View) -> Vector2View {
        Vector2View { x: self.x + other.x, y: self.y + other.y }
    }

    /// Component-wise difference.
    pub open spec fn vsub(self, other: Vector2View) -> Vector2View {
        Vector2View { x: self.x - other.x, y: self.y - other.y }
    }

    /// Uniform scale of every component by `s`.
    pub open spec fn scale(self, s: int) -> Vector2View {
        Vector2View { x: self.x * s, y: self.y * s }
    }

    /// Widening conversion: keeps `x` and `y`, sets `z` to zero.
    pub open spec fn as_vector3(self) -> Vector3View {
        Vector3View { x: self.x, y: self.y, z: 0 }
    }

    /// Widening conversion: keeps `x` and `y`, sets `z` and `w` to zero.
    pub open spec fn as_vector4(self) -> Vector4View {
        Vector4View { x: self.x, y: self.y, z: 0, w: 0 }
    }

    /// Every component fits in an `i64`.
    pub open spec fn in_bounds(self) -> bool {
        &&& fits_i64(self.x)
        &&& fits_i64(self.y)
    }
}

/// A 2-component vector of `i64` scalars.
#[derive(Clone, Copy, Debug, PartialEq, Eq, Structural)]
pub struct Vector2 {
    pub x: i64,
    pub y: i64,
}

impl View for Vector2 {
    type V = Vector2View;

    open spec fn view(&self) -> Vector2View {
        Vector2View { x: self.x as int, y: self.y as int }
    }
}

impl Vector2 {
    /// Builds the vector from its two components; always succeeds.
    pub fn new(x: i64, y: i64) -> (r: Vector2)
        ensures
            r.x == x,
            r.y == y,
    {
        Vector2 { x, y }
    }

    /// Builds the vector from an array of exactly two components.
    pub fn from_array(a: [i64; 2]) -> (r: Vector2)
        ensures
            r.x == a[0],
            r.y == a[1],
    {
        Vector2 { x: a[0], y: a[1] }
    }

    /// Returns the components as an array, in field order.
    pub fn to_array(&self) -> (r: [i64; 2])
        ensures
            r@ == seq![self.x, self.y],
    {
        [self.x, self.y]
    }

    /// Widens to a 3-component vector, filling `z` with zero.
    pub fn as_vector3(&self) -> (r: Vector3)
        ensures
            r@ == self@.as_vector3(),
    {
        Vector3 { x: self.x, y: self.y, z: 0 }
    }

    /// Widens to a 4-component vector, filling `z` and `w` with zero.
    pub fn as_vector4(&self) -> (r: Vector4)
        ensures
            r@ == self@.as_vector4(),
    {
        Vector4 { x: self.x, y: self.y, z: 0, w: 0 }
    }

    /// Component-wise sum; the operands are left unchanged.
    pub fn add(&self, other: &Vector2) -> (r: Vector2)
        requires
            self@.vadd(other@).in_bounds(),
        ensures
            r@ == self@.vadd(other@),
    {
        Vector2 { x: self.x + other.x, y: self.y + other.y }
    }

    /// In-place component-wise sum: the same result `add` returns.
    pub fn add_assign(&mut self, other: &Vector2)
        requires
            old(self)@.vadd(other@).in_bounds(),
        ensures
            final(self)@ == old(self)@.vadd(other@),
    {
        self.x = self.x + other.x;
        self.y = self.y + other.y;
    }

    /// Component-wise difference; the operands are left unchanged.
    pub fn sub(&self, other: &Vector2) -> (r: Vector2)
        requires
            self@.vsub(other@).in_bounds(),
        ensures
            r@ == self@.vsub(other@),
    {
        Vector2 { x: self.x - other.x, y: self.y - other.y }
    }

    /// In-place component-wise difference: the same result `sub` returns.
    pub fn sub_assign(&mut self, other: &Vector2)
        requires
            old(self)@.vsub(other@).in_bounds(),
        ensures
            final(self)@ == old(self)@.vsub(other@),
    {
        self.x = self.x - other.x;
        self.y = self.y - other.y;
    }

    /// Uniform scale of every component by the scalar `s`.
    pub fn mul(&self, s: i64) -> (r: Vector2)
        requires
            self@.scale(s as int).in_bounds(),
        ensures
            r@ == self@.scale(s as int),
    {
        Vector2 { x: self.x * s, y: self.y * s }
    }

    /// In-place uniform scale: the same result `mul` returns.
    pub fn mul_assign(&mut self, s: i64)
        requires
            old(self)@.scale(s as int).in_bounds(),
        ensures
            final(self)@ == old(self)@.scale(s as int),
    {
        self.x = self.x * s;
        self.y = self.y * s;
    }
}

/// Additive identity: adding the zero vector changes nothing.
pub proof fn lemma_vector2_add_zero(v: Vector2View)
    ensures
        v.vadd(Vector2View::zero()) == v,
{
}

/// Additive inverse: subtracting a vector from itself gives the zero vector.
pub proof fn lemma_vector2_sub_self(v: Vector2View)
    ensures
        v.vsub(v) == Vector2View::zero(),
{
}

/// Scalar multiplication distributes over vector addition.
pub proof fn lemma_vector2_scale_distributes(a: Vector2View, b: Vector2View, s: int)
    ensures
        a.vadd(b).scale(s) == a.scale(s).vadd(b.scale(s)),
{
    assert((a.x + b.x) * s == a.x * s + b.x * s) by (nonlinear_arith);
    assert((a.y + b.y) * s == a.y * s + b.y * s) by (nonlinear_arith);
}

/// Array round-trip: a vector rebuilt from the array it was written to is
/// the original vector. Here `a` meets the contract of `to_array` on `v`,
/// and `r` meets the contract of `from_array` on `a`.
pub proof fn lemma_vector2_array_round_trip(v: Vector2, a: [i64; 2], r: Vector2)
    requires
        a@ == seq![v.x, v.y],
        r.x == a[0],
        r.y == a[1],
    ensures
        r == v,
{
}

/// In-place operators are equivalent to their plain counterparts: the
/// contracts of `add_assign`, `sub_assign` and `mul_assign` pin the updated
/// vector to the very view that `add`, `sub` and `mul` pin their result to,
/// and two vectors with the same view are the same vector.
pub proof fn lemma_vector2_in_place_matches_plain(
    expected: Vector2View,
    assigned: Vector2,
    returned: Vector2,
)
    requires
        assigned@ == expected,
        returned@ == expected,
    ensures
        assigned == returned,
{
}

/// Widening to three components and narrowing back is the identity.
pub proof fn lemma_vector2_via_vector3_round_trip(v: Vector2View)
    ensures
        v.as_vector3().as_vector2() == v,
{
}

/// Widening to four components and narrowing back is the identity.
pub proof fn lemma_vector2_via_vector4_round_trip(v: Vector2View)
    ensures
        v.as_vector4().as_vector2() == v,
{
}

} // verus!
