//! Three-component vectors and their algebra over an arithmetic unit.
use vstd::prelude::*;
use crate::arithmetic::{Arithmetic, Model, Operation};
use crate::scalar::{ONE, ZERO};

verus! {

/// A vector of three binary64 patterns.
#[derive(Clone, Copy, Debug, PartialEq, Eq, Structural)]
pub struct Vector3 {
    pub x: u64,
    pub y: u64,
    pub z: u64,
}

/// The vector whose three components are positive zero.
pub open spec fn zero_vector() -> Vector3 {
    Vector3 { x: ZERO, y: ZERO, z: ZERO }
}

/// The unit vector along the third axis, the fixed "up" of the orbital plane.
pub open spec fn unit_z() -> Vector3 {
    Vector3 { x: ZERO, y: ZERO, z: ONE }
}

impl Vector3 {
    /// A vector from its three components.
    pub fn new(x: u64, y: u64, z: u64) -> (v: Vector3)
        ensures
            v == (Vector3 { x, y, z }),
    {
        Vector3 { x, y, z }
    }

    /// The zero vector.
    pub fn zero() -> (v: Vector3)
        ensures
            v == zero_vector(),
    {
        Vector3 { x: ZERO, y: ZERO, z: ZERO }
    }

    /// The unit vector along the third axis.
    pub fn unit_z() -> (v: Vector3)
        ensures
            v == unit_z(),
    {
        Vector3 { x: ZERO, y: ZERO, z: ONE }
    }
}

impl Model {
    /// `a + b`, component by component.
    pub open spec fn vector_sum(self, a: Vector3, b: Vector3) -> Vector3 {
        Vector3 { x: self.sum(a.x, b.x), y: self.sum(a.y, b.y), z: self.sum(a.z, b.z) }
    }

    /// `a - b`, component by component.
    pub open spec fn vector_difference(self, a: Vector3, b: Vector3) -> Vector3 {
        Vector3 {
            x: self.difference(a.x, b.x),
            y: self.difference(a.y, b.y),
            z: self.difference(a.z, b.z),
        }
    }

    /// `s * v`: the scalar times each component.
    pub open spec fn multiple(self, s: u64, v: Vector3) -> Vector3 {
        Vector3 { x: self.product(s, v.x), y: self.product(s, v.y), z: self.product(s, v.z) }
    }

    /// `v * s`: each component times the scalar.
    pub open spec fn scaled(self, v: Vector3, s: u64) -> Vector3 {
        Vector3 { x: self.product(v.x, s), y: self.product(v.y, s), z: self.product(v.z, s) }
    }

    /// `v / s`: each component divided by the scalar.
    pub open spec fn vector_quotient(self, v: Vector3, s: u64) -> Vector3 {
        Vector3 { x: self.quotient(v.x, s), y: self.quotient(v.y, s), z: self.quotient(v.z, s) }
    }

    /// The inner product `(a.x * b.x + a.y * b.y) + a.z * b.z`.
    pub open spec fn dot(self, a: Vector3, b: Vector3) -> u64 {
        self.sum(
            self.sum(self.product(a.x, b.x), self.product(a.y, b.y)),
            self.product(a.z, b.z),
        )
    }

    /// The squared length of `v`: its inner product with itself.
    pub open spec fn magnitude2(self, v: Vector3) -> u64 {
        self.dot(v, v)
    }

    /// The length of `v`: the square root of its squared length.
    pub open spec fn magnitude(self, v: Vector3) -> u64 {
        self.root(self.magnitude2(v))
    }

    /// `v` brought to length one: `v * (1 / |v|)`.
    pub open spec fn normalized(self, v: Vector3) -> Vector3 {
        self.scaled(v, self.quotient(ONE, self.magnitude(v)))
    }

    /// The cross product `a x b`.
    pub open spec fn cross(self, a: Vector3, b: Vector3) -> Vector3 {
        Vector3 {
            x: self.difference(self.product(a.y, b.z), self.product(a.z, b.y)),
            y: self.difference(self.product(a.z, b.x), self.product(a.x, b.z)),
            z: self.difference(self.product(a.x, b.y), self.product(a.y, b.x)),
        }
    }

    /// The distance between two points: the length of `a - b`.
    pub open spec fn distance(self, a: Vector3, b: Vector3) -> u64 {
        self.magnitude(self.vector_difference(a, b))
    }
}

impl<F: Fn(Operation, u64, u64) -> u64> Arithmetic<F> {
    /// `a + b`.
    pub fn add_vectors(&self, a: Vector3, b: Vector3) -> (r: Vector3)
        ensures
            r == self@.vector_sum(a, b),
    {
        Vector3 { x: self.plus(a.x, b.x), y: self.plus(a.y, b.y), z: self.plus(a.z, b.z) }
    }

    /// `a - b`.
    pub fn subtract_vectors(&self, a: Vector3, b: Vector3) -> (r: Vector3)
        ensures
            r == self@.vector_difference(a, b),
    {
        Vector3 { x: self.minus(a.x, b.x), y: self.minus(a.y, b.y), z: self.minus(a.z, b.z) }
    }

    /// `s * v`.
    pub fn multiply(&self, s: u64, v: Vector3) -> (r: Vector3)
        ensures
            r == self@.multiple(s, v),
    {
        Vector3 { x: self.times(s, v.x), y: self.times(s, v.y), z: self.times(s, v.z) }
    }

    /// `v * s`.
    pub fn scale(&self, v: Vector3, s: u64) -> (r: Vector3)
        ensures
            r == self@.scaled(v, s),
    {
        Vector3 { x: self.times(v.x, s), y: self.times(v.y, s), z: self.times(v.z, s) }
    }

    /// `v / s`.
    pub fn divide(&self, v: Vector3, s: u64) -> (r: Vector3)
        ensures
            r == self@.vector_quotient(v, s),
    {
        Vector3 { x: self.over(v.x, s), y: self.over(v.y, s), z: self.over(v.z, s) }
    }

    /// The inner product of `a` and `b`.
    pub fn inner_product(&self, a: Vector3, b: Vector3) -> (r: u64)
        ensures
            r == self@.dot(a, b),
    {
        let xx: u64 = self.times(a.x, b.x);
        let yy: u64 = self.times(a.y, b.y);
        let zz: u64 = self.times(a.z, b.z);
        let xy: u64 = self.plus(xx, yy);
        self.plus(xy, zz)
    }

    /// The squared length of `v`.
    pub fn squared_length(&self, v: Vector3) -> (r: u64)
        ensures
            r == self@.magnitude2(v),
    {
        self.inner_product(v, v)
    }

    /// The length of `v`.
    pub fn length(&self, v: Vector3) -> (r: u64)
        ensures
            r == self@.magnitude(v),
    {
        let squared: u64 = self.squared_length(v);
        self.sqrt(squared)
    }

    /// `v` brought to length one.
    pub fn normalize(&self, v: Vector3) -> (r: Vector3)
        ensures
            r == self@.normalized(v),
    {
        let length: u64 = self.length(v);
        let factor: u64 = self.over(ONE, length);
        self.scale(v, factor)
    }

    /// The cross product `a x b`.
    pub fn cross_product(&self, a: Vector3, b: Vector3) -> (r: Vector3)
        ensures
            r == self@.cross(a, b),
    {
        let yz: u64 = self.times(a.y, b.z);
        let zy: u64 = self.times(a.z, b.y);
        let zx: u64 = self.times(a.z, b.x);
        let xz: u64 = self.times(a.x, b.z);
        let xy: u64 = self.times(a.x, b.y);
        let yx: u64 = self.times(a.y, b.x);
        Vector3 { x: self.minus(yz, zy), y: self.minus(zx, xz), z: self.minus(xy, yx) }
    }

    /// The distance between the points `a` and `b`.
    pub fn distance_between(&self, a: Vector3, b: Vector3) -> (r: u64)
        ensures
            r == self@.distance(a, b),
    {
        let d: Vector3 = self.subtract_vectors(a, b);
        self.length(d)
    }
}

} // verus!
