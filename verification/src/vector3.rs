use vstd::prelude::*;

use crate::scalar::fits_i64;
use crate::vector2::Vector2;
use crate::vector2::Vector2View;
use crate::vector4::Vector4;
use crate::vector4::Vector4View;

verus! {

/// Mathematical model of a 3-component vector: a triple of unbounded integers.
pub struct Vector3View {
    pub x: int,
    pub y: int,
    pub z: int,
}

impl Vector3View {
    /// The vector with every component zero.
    pub open spec fn zero() -> Vector3View {
        Vector3View { x: 0, y: 0, z: 0 }
    }

    /// Component-wise sum.
    pub open spec fn vadd(self, other: Vector3View) -> Vector3View {
        Vector3View { x: self.x + other.x, y: self.y + other.y, z: self.z + other.z }
    }

    /// Component-wise difference.
    pub open spec fn vsub(self, other: Vector3View) -> Vector3View {
        Vector3View { x: self.x - other.x, y: self.y - other.y, z: self.z - other.z }
    }

    /// Uniform scale of every component by `s`.
    pub open spec fn scale(self, s: int) -> Vector3View {
        Vector3View { x: self.x * s, y: self.y * s, z: self.z * s }
    }

    /// Component-wise negation.
    pub open spec fn neg(self) -> Vector3View {
        Vector3View { x: -self.x, y: -self.y, z: -self.z }
    }

    /// Dot product: the sum of the pairwise component products.
    pub open spec fn dot(self, other: Vector3View) -> int {
        self.x * other.x + self.y * other.y + self.z * other.z
    }

    /// Right-handed cross product.
    pub open spec fn cross(self, other: Vector3View) -> Vector3View {
        Vector3View {
            x: self.y * other.z - self.z * other.y,
            y: self.z * other.x - self.x * other.z,
            z: self.x * other.y - self.y * other.x,
        }
    }

    /// Narrowing conversion: keeps `x` and `y`, drops `z`.
    pub open spec fn as_vector2(self) -> Vector2View {
        Vector2View { x: self.x, y: self.y }
    }

    /// Widening conversion: keeps all components, sets `w` to zero.
    pub open spec fn as_vector4(self) -> Vector4View {
        Vector4View { x: self.x, y: self.y, z: self.z, w: 0 }
    }

    /// Every component fits in an `i64`.
    pub open spec fn in_bounds(self) -> bool {
        &&& fits_i64(self.x)
        &&& fits_i64(self.y)
        &&& fits_i64(self.z)
    }
}

/// A 3-component vector of `i64` scalars.
#[derive(Clone, Copy, Debug, PartialEq, Eq, Structural)]
pub struct Vector3 {
    pub x: i64,
    pub y: i64,
    pub z: i64,
}

impl View for Vector3 {
    type V = Vector3View;

    open spec fn view(&self) -> Vector3View {
        Vector3View { x: self.x as int, y: self.y as int, z: self.z as int }
    }
}

impl Default for Vector3 {
    /// The zero vector.
    fn default() -> (r: Vector3)
        ensures
            r@ == Vector3View::zero(),
    {
        Vector3 { x: 0, y: 0, z: 0 }
    }
}

impl Vector3 {
    /// Builds the vector from its three components; always succeeds.
    pub fn new(x: i64, y: i64, z: i64) -> (r: Vector3)
        ensures
            r.x == x,
            r.y == y,
            r.z == z,
    {
        Vector3 { x, y, z }
    }

    /// Builds the vector from an array of exactly three components.
    pub fn from_array(a: [i64; 3]) -> (r: Vector3)
        ensures
            r.x == a[0],
            r.y == a[1],
            r.z == a[2],
    {
        Vector3 { x: a[0], y: a[1], z: a[2] }
    }

    /// Returns the components as an array, in field order.
    pub fn to_array(&self) -> (r: [i64; 3])
        ensures
            r@ == seq![self.x, self.y, self.z],
    {
        [self.x, self.y, self.z]
    }

    /// Narrows to a 2-component vector, dropping `z`.
    pub fn as_vector2(&self) -> (r: Vector2)
        ensures
            r@ == self@.as_vector2(),
    {
        Vector2 { x: self.x, y: self.y }
    }

    /// Widens to a 4-component vector, filling `w` with zero.
    pub fn as_vector4(&self) -> (r: Vector4)
        ensures
            r@ == self@.as_vector4(),
    {
        Vector4 { x: self.x, y: self.y, z: self.z, w: 0 }
    }

    /// Dot product of two vectors: the sum of the pairwise component
    /// products, accumulated left to right.
    pub fn dot(&self, other: &Vector3) -> (r: i64)
        requires
            fits_i64(self@.x * other@.x),
            fits_i64(self@.y * other@.y),
            fits_i64(self@.z * other@.z),
            fits_i64(self@.x * other@.x + self@.y * other@.y),
            fits_i64(self@.dot(other@)),
        ensures
            r == self@.dot(other@),
    {
        self.x * other.x + self.y * other.y + self.z * other.z
    }

    /// Cross product of two vectors, right-handed.
    pub fn cross(&self, other: &Vector3) -> (r: Vector3)
        requires
            fits_i64(self@.y * other@.z),
            fits_i64(self@.z * other@.y),
            fits_i64(self@.z * other@.x),
            fits_i64(self@.x * other@.z),
            fits_i64(self@.x * other@.y),
            fits_i64(self@.y * other@.x),
            self@.cross(other@).in_bounds(),
        ensures
            r@ == self@.cross(other@),
    {
        Vector3 {
            x: self.y * other.z - self.z * other.y,
            y: self.z * other.x - self.x * other.z,
            z: self.x * other.y - self.y * other.x,
        }
    }

    /// Component-wise sum; the operands are left unchanged.
    pub fn add(&self, other: &Vector3) -> (r: Vector3)
        requires
            self@.vadd(other@).in_bounds(),
        ensures
            r@ == self@.vadd(other@),
    {
        Vector3 { x: self.x + other.x, y: self.y + other.y, z: self.z + other.z }
    }

    /// In-place component-wise sum: the same result `add` returns.
    pub fn add_assign(&mut self, other: &Vector3)
        requires
            old(self)@.vadd(other@).in_bounds(),
        ensures
            final(self)@ == old(self)@.vadd(other@),
    {
        self.x = self.x + other.x;
        self.y = self.y + other.y;
        self.z = self.z + other.z;
    }

    /// Component-wise difference; the operands are left unchanged.
    pub fn sub(&self, other: &Vector3) -> (r: Vector3)
        requires
            self@.vsub(other@).in_bounds(),
        ensures
            r@ == self@.vsub(other@),
    {
        Vector3 { x: self.x - other.x, y: self.y - other.y, z: self.z - other.z }
    }

    /// In-place component-wise difference: the same result `sub` returns.
    pub fn sub_assign(&mut self, other: &Vector3)
        requires
            old(self)@.vsub(other@).in_bounds(),
        ensures
            final(self)@ == old(self)@.vsub(other@),
    {
        self.x = self.x - other.x;
        self.y = self.y - other.y;
        self.z = self.z - other.z;
    }

    /// Uniform scale of every component by the scalar `s`.
    pub fn mul(&self, s: i64) -> (r: Vector3)
        requires
            self@.scale(s as int).in_bounds(),
        ensures
            r@ == self@.scale(s as int),
    {
        Vector3 { x: self.x * s, y: self.y * s, z: self.z * s }
    }

    /// In-place uniform scale: the same result `mul` returns.
    pub fn mul_assign(&mut self, s: i64)
        requires
            old(self)@.scale(s as int).in_bounds(),
        ensures
            final(self)@ == old(self)@.scale(s as int),
    {
        self.x = self.x * s;
        self.y = self.y * s;
        self.z = self.z * s;
    }
}

/// Additive identity: adding the zero vector changes nothing.
pub proof fn lemma_vector3_add_zero(v: Vector3View)
    ensures
        v.vadd(Vector3View::zero()) == v,
{
}

/// Additive inverse: subtracting a vector from itself gives the zero vector.
pub proof fn lemma_vector3_sub_self(v: Vector3View)
    ensures
        v.vsub(v) == Vector3View::zero(),
{
}

/// Scalar multiplication distributes over vector addition.
pub proof fn lemma_vector3_scale_distributes(a: Vector3View, b: Vector3View, s: int)
    ensures
        a.vadd(b).scale(s) == a.scale(s).vadd(b.scale(s)),
{
    assert((a.x + b.x) * s == a.x * s + b.x * s) by (nonlinear_arith);
    assert((a.y + b.y) * s == a.y * s + b.y * s) by (nonlinear_arith);
    assert((a.z + b.z) * s == a.z * s + b.z * s) by (nonlinear_arith);
}

/// The dot product is symmetric in its two operands.
pub proof fn lemma_vector3_dot_symmetric(a: Vector3View, b: Vector3View)
    ensures
        a.dot(b) == b.dot(a),
{
}

/// The cross product anti-commutes: swapping the operands negates it.
pub proof fn lemma_vector3_cross_anticommutes(a: Vector3View, b: Vector3View)
    ensures
        a.cross(b) == b.cross(a).neg(),
{
}

/// The cross product of a vector with itself is the zero vector.
pub proof fn lemma_vector3_cross_self_zero(a: Vector3View)
    ensures
        a.cross(a) == Vector3View::zero(),
{
}

/// Array round-trip: a vector rebuilt from the array it was written to is
/// the original vector. Here `a` meets the contract of `to_array` on `v`,
/// and `r` meets the contract of `from_array` on `a`.
pub proof fn lemma_vector3_array_round_trip(v: Vector3, a: [i64; 3], r: Vector3)
    requires
        a@ == seq![v.x, v.y, v.z],
        r.x == a[0],
        r.y == a[1],
        r.z == a[2],
    ensures
        r == v,
{
}

/// In-place operators are equivalent to their plain counterparts: the
/// contracts of `add_assign`, `sub_assign` and `mul_assign` pin the updated
/// vector to the very view that `add`, `sub` and `mul` pin their result to,
/// and two vectors with the same view are the same vector.
pub proof fn lemma_vector3_in_place_matches_plain(
    expected: Vector3View,
    assigned: Vector3,
    returned: Vector3,
)
    requires
        assigned@ == expected,
        returned@ == expected,
    ensures
        assigned == returned,
{
}

/// Widening to four components and narrowing back is the identity.
pub proof fn lemma_vector3_via_vector4_round_trip(v: Vector3View)
    ensures
        v.as_vector4().as_vector3() == v,
{
}

/// Narrowing to two components and widening back keeps `x` and `y` and
/// zeroes the reintroduced `z`.
pub proof fn lemma_vector3_narrow_then_widen(v: Vector3View)
    ensures
        v.as_vector2().as_vector3() == (Vector3View { x: v.x, y: v.y, z: 0 }),
{
}

} // verus!
