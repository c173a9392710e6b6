use vstd::prelude::*;

use crate::scalar::fits_i64;
use crate::vector2::Vector2;
use crate::vector2::Vector2View;
use crate::vector3::Vector3;
use crate::vector3::Vector3View;

verus! {

/// Mathematical model of a 4-component vector: four unbounded integers.
pub struct Vector4View {
    pub x: int,
    pub y: int,
    pub z: int,
    pub w: int,
}

impl Vector4View {
    /// The vector with every component zero.
    pub open spec fn zero() -> Vector4View {
        Vector4View { x: 0, y: 0, z: 0, w: 0 }
    }

    /// Component-wise sum.
    pub open spec fn vadd(self, other: Vector4View) -> Vector4View {
        Vector4View {
            x: self.x + other.x,
            y: self.y + other.y,
            z: self.z + other.z,
            w: self.w + other.w,
        }
    }

    /// Component-wise difference.
    pub open spec fn vsub(self, other: Vector4View) -> Vector4View {
        Vector4View {
            x: self.x - other.x,
            y: self.y - other.y,
            z: self.z - other.z,
            w: self.w - other.w,
        }
    }

    /// Uniform scale of every component by `s`.
    pub open spec fn scale(self, s: int) -> Vector4View {
        Vector4View { x: self.x * s, y: self.y * s, z: self.z * s, w: self.w * s }
    }

    /// Dot product: the sum of the pairwise component products.
    pub open spec fn dot(self, other: Vector4View) -> int {
        self.x * other.x + self.y * other.y + self.z * other.z + self.w * other.w
    }

    /// Narrowing conversion: keeps `x` and `y`, drops `z` and `w`.
    pub open spec fn as_vector2(self) -> Vector2View {
        Vector2View { x: self.x, y: self.y }
    }

    /// Narrowing conversion: keeps `x`, `y` and `z`, drops `w`.
    pub open spec fn as_vector3(self) -> Vector3View {
        Vector3View { x: self.x, y: self.y, z: self.z }
    }

    /// Every component fits in an `i64`.
    pub open spec fn in_bounds(self) -> bool {
        &&& fits_i64(self.x)
        &&& fits_i64(self.y)
        &&& fits_i64(self.z)
        &&& fits_i64(self.w)
    }
}

/// A 4-component vector of `i64` scalars.
#[derive(Clone, Copy, Debug, PartialEq, Eq, Structural)]
pub struct Vector4 {
    pub x: i64,
    pub y: i64,
    pub z: i64,
    pub w: i64,
}

impl View for Vector4 {
    type V = Vector4View;

    open spec fn view(&self) -> Vector4View {
        Vector4View { x: self.x as int, y: self.y as int, z: self.z as int, w: self.w as int }
    }
}

impl Default for Vector4 {
    /// The zero vector.
    fn default() -> (r: Vector4)
        ensures
            r@ == Vector4View::zero(),
    {
        Vector4 { x: 0, y: 0, z: 0, w: 0 }
    }
}

impl Vector4 {
    /// Builds the vector from its four components; always succeeds.
    pub fn new(x: i64, y: i64, z: i64, w: i64) -> (r: Vector4)
        ensures
            r.x == x,
            r.y == y,
            r.z == z,
            r.w == w,
    {
        Vector4 { x, y, z, w }
    }

    /// Builds the vector from an array of exactly four components.
    pub fn from_array(a: [i64; 4]) -> (r: Vector4)
        ensures
            r.x == a[0],
            r.y == a[1],
            r.z == a[2],
            r.w == a[3],
    {
        Vector4 { x: a[0], y: a[1], z: a[2], w: a[3] }
    }

    /// Returns the components as an array, in field order.
    pub fn to_array(&self) -> (r: [i64; 4])
        ensures
            r@ == seq![self.x, self.y, self.z, self.w],
    {
        [self.x, self.y, self.z, self.w]
    }

    /// Narrows to a 2-component vector, dropping `z` and `w`.
    pub fn as_vector2(&self) -> (r: Vector2)
        ensures
            r@ == self@.as_vector2(),
    {
        Vector2 { x: self.x, y: self.y }
    }

    /// Narrows to a 3-component vector, dropping `w`.
    pub fn as_vector3(&self) -> (r: Vector3)
        ensures
            r@ == self@.as_vector3(),
    {
        Vector3 { x: self.x, y: self.y, z: self.z }
    }

    /// Dot product of two vectors: the sum of the pairwise component
    /// products, accumulated left to right.
    pub fn dot(&self, other: &Vector4) -> (r: i64)
        requires
            fits_i64(self@.x * other@.x),
            fits_i64(self@.y * other@.y),
            fits_i64(self@.z * other@.z),
            fits_i64(self@.w * other@.w),
            fits_i64(self@.x * other@.x + self@.y * other@.y),
            fits_i64(self@.x * other@.x + self@.y * other@.y + self@.z * other@.z),
            fits_i64(self@.dot(other@)),
        ensures
            r == self@.dot(other@),
    {
        self.x * other.x + self.y * other.y + self.z * other.z + self.w * other.w
    }

    /// Component-wise sum; the operands are left unchanged.
    pub fn add(&self, other: &Vector4) -> (r: Vector4)
        requires
            self@.vadd(other@).in_bounds(),
        ensures
            r@ == self@.vadd(other@),
    {
        Vector4 {
            x: self.x + other.x,
            y: self.y + other.y,
            z: self.z + other.z,
            w: self.w + other.w,
        }
    }

    /// In-place component-wise sum: the same result `add` returns.
    pub fn add_assign(&mut self, other: &Vector4)
        requires
            old(self)@.vadd(other@).in_bounds(),
        ensures
            final(self)@ == old(self)@.vadd(other@),
    {
        self.x = self.x + other.x;
        self.y = self.y + other.y;
        self.z = self.z + other.z;
        self.w = self.w + other.w;
    }

    /// Component-wise difference; the operands are left unchanged.
    pub fn sub(&self, other: &Vector4) -> (r: Vector4)
        requires
            self@.vsub(other@).in_bounds(),
        ensures
            r@ == self@.vsub(other@),
    {
        Vector4 {
            x: self.x - other.x,
            y: self.y - other.y,
            z: self.z - other.z,
            w: self.w - other.w,
        }
    }

    /// In-place component-wise difference: the same result `sub` returns.
    pub fn sub_assign(&mut self, other: &Vector4)
        requires
            old(self)@.vsub(other@).in_bounds(),
        ensures
            final(self)@ == old(self)@.vsub(other@),
    {
        self.x = self.x - other.x;
        self.y = self.y - other.y;
        self.z = self.z - other.z;
        self.w = self.w - other.w;
    }

    /// Uniform scale of every component by the scalar `s`.
    pub fn mul(&self, s: i64) -> (r: Vector4)
        requires
            self@.scale(s as int).in_bounds(),
        ensures
            r@ == self@.scale(s as int),
    {
        Vector4 { x: self.x * s, y: self.y * s, z: self.z * s, w: self.w * s }
    }

    /// In-place uniform scale: the same result `mul` returns.
    pub fn mul_assign(&mut self, s: i64)
        requires
            old(self)@.scale(s as int).in_bounds(),
        ensures
            final(self)@ == old(self)@.scale(s as int),
    {
        self.x = self.x * s;
        self.y = self.y * s;
        self.z = self.z * s;
        self.w = self.w * s;
    }
}

/// Additive identity: adding the zero vector changes nothing.
pub proof fn lemma_vector4_add_zero(v: Vector4View)
    ensures
        v.vadd(Vector4View::zero()) == v,
{
}

/// Additive inverse: subtracting a vector from itself gives the zero vector.
pub proof fn lemma_vector4_sub_self(v: Vector4View)
    ensures
        v.vsub(v) == Vector4View::zero(),
{
}

/// Scalar multiplication distributes over vector addition.
pub proof fn lemma_vector4_scale_distributes(a: Vector4View, b: Vector4View, s: int)
    ensures
        a.vadd(b).scale(s) == a.scale(s).vadd(b.scale(s)),
{
    assert((a.x + b.x) * s == a.x * s + b.x * s) by (nonlinear_arith);
    assert((a.y + b.y) * s == a.y * s + b.y * s) by (nonlinear_arith);
    assert((a.z + b.z) * s == a.z * s + b.z * s) by (nonlinear_arith);
    assert((a.w + b.w) * s == a.w * s + b.w * s) by (nonlinear_arith);
}

/// The dot product is symmetric in its two operands.
pub proof fn lemma_vector4_dot_symmetric(a: Vector4View, b: Vector4View)
    ensures
        a.dot(b) == b.dot(a),
{
}

/// Array round-trip: a vector rebuilt from the array it was written to is
/// the original vector. Here `a` meets the contract of `to_array` on `v`,
/// and `r` meets the contract of `from_array` on `a`.
pub proof fn lemma_vector4_array_round_trip(v: Vector4, a: [i64; 4], r: Vector4)
    requires
        a@ == seq![v.x, v.y, v.z, v.w],
        r.x == a[0],
        r.y == a[1],
        r.z == a[2],
        r.w == a[3],
    ensures
        r == v,
{
}

/// In-place operators are equivalent to their plain counterparts: the
/// contracts of `add_assign`, `sub_assign` and `mul_assign` pin the updated
/// vector to the very view that `add`, `sub` and `mul` pin their result to,
/// and two vectors with the same view are the same vector.
pub proof fn lemma_vector4_in_place_matches_plain(
    expected: Vector4View,
    assigned: Vector4,
    returned: Vector4,
)
    requires
        assigned@ == expected,
        returned@ == expected,
    ensures
        assigned == returned,
{
}

/// Narrowing to two components and widening back keeps `x` and `y` and
/// zeroes the reintroduced `z` and `w`.
pub proof fn lemma_vector4_narrow_to_2_then_widen(v: Vector4View)
    ensures
        v.as_vector2().as_vector4() == (Vector4View { x: v.x, y: v.y, z: 0, w: 0 }),
{
}

/// Narrowing to three components and widening back keeps `x`, `y` and `z`
/// and zeroes the reintroduced `w`.
pub proof fn lemma_vector4_narrow_to_3_then_widen(v: Vector4View)
    ensures
        v.as_vector3().as_vector4() == (Vector4View { x: v.x, y: v.y, z: v.z, w: 0 }),
{
}

} // verus!
