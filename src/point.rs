//! Points (homogeneous `w = 1`) and direction vectors (homogeneous `w = 0`) in 3-D,
//! and the application of a 4×4 transform to each.
use vstd::prelude::*;
use crate::algebra::{abs, lemma_abs_mul, matrix4};
use crate::matrix::Matrix;

verus! {

/// `x` is a value of `i64`.
pub open spec fn fits(x: int) -> bool {
    i64::MIN <= x <= i64::MAX
}

/// A position in space.
#[derive(Copy, Clone, Debug, PartialEq, Eq)]
pub struct Point {
    pub x: i64,
    pub y: i64,
    pub z: i64,
}

/// A direction and magnitude in space.
#[derive(Copy, Clone, Debug, PartialEq, Eq)]
pub struct Vector {
    pub x: i64,
    pub y: i64,
    pub z: i64,
}

impl View for Point {
    type V = (int, int, int);

    open spec fn view(&self) -> (int, int, int) {
        (self.x as int, self.y as int, self.z as int)
    }
}

impl View for Vector {
    type V = (int, int, int);

    open spec fn view(&self) -> (int, int, int) {
        (self.x as int, self.y as int, self.z as int)
    }
}

/// Coordinate `row` of the image of homogeneous `(p, w)` under `m`.
pub open spec fn image_coordinate(m: Seq<Seq<int>>, row: int, p: (int, int, int), w: int) -> int {
    m[row][0] * p.0 + m[row][1] * p.1 + m[row][2] * p.2 + m[row][3] * w
}

/// The image of homogeneous `(p, w)` under `m`, without its fourth coordinate.
pub open spec fn image(m: Seq<Seq<int>>, p: (int, int, int), w: int) -> (int, int, int) {
    (image_coordinate(m, 0, p, w), image_coordinate(m, 1, p, w), image_coordinate(m, 2, p, w))
}

/// The sum of the magnitudes of the terms of `image_coordinate`: a bound on each partial sum.
pub open spec fn image_magnitude(m: Seq<Seq<int>>, row: int, p: (int, int, int), w: int) -> int {
    abs(m[row][0]) * abs(p.0) + abs(m[row][1]) * abs(p.1) + abs(m[row][2]) * abs(p.2) + abs(
        m[row][3],
    ) * abs(w)
}

/// Every coordinate of the image, computed left to right, stays within `i64`.
pub open spec fn image_fits(m: Seq<Seq<int>>, p: (int, int, int), w: int) -> bool {
    &&& image_magnitude(m, 0, p, w) <= i64::MAX
    &&& image_magnitude(m, 1, p, w) <= i64::MAX
    &&& image_magnitude(m, 2, p, w) <= i64::MAX
}

impl Point {
    pub fn new(x: i64, y: i64, z: i64) -> (r: Point)
        ensures
            r@ == (x as int, y as int, z as int),
    {
        Point { x, y, z }
    }

    /// The point moved by `v`.
    pub fn add_vector(&self, v: &Vector) -> (r: Point)
        requires
            fits(self.x + v.x),
            fits(self.y + v.y),
            fits(self.z + v.z),
        ensures
            r@ == (self.x + v.x, self.y + v.y, self.z + v.z),
    {
        Point { x: self.x + v.x, y: self.y + v.y, z: self.z + v.z }
    }

    /// The point moved by `-v`.
    pub fn sub_vector(&self, v: &Vector) -> (r: Point)
        requires
            fits(self.x - v.x),
            fits(self.y - v.y),
            fits(self.z - v.z),
        ensures
            r@ == (self.x - v.x, self.y - v.y, self.z - v.z),
    {
        Point { x: self.x - v.x, y: self.y - v.y, z: self.z - v.z }
    }

    /// The vector from `other` to this point.
    pub fn sub_point(&self, other: &Point) -> (r: Vector)
        requires
            fits(self.x - other.x),
            fits(self.y - other.y),
            fits(self.z - other.z),
        ensures
            r@ == (self.x - other.x, self.y - other.y, self.z - other.z),
    {
        Vector { x: self.x - other.x, y: self.y - other.y, z: self.z - other.z }
    }

    /// Each coordinate multiplied by `k`.
    pub fn scale(&self, k: i64) -> (r: Point)
        requires
            fits(self.x * k),
            fits(self.y * k),
            fits(self.z * k),
        ensures
            r@ == (self.x * k, self.y * k, self.z * k),
    {
        Point { x: self.x * k, y: self.y * k, z: self.z * k }
    }

    /// Each coordinate negated.
    pub fn negate(&self) -> (r: Point)
        requires
            fits(-self.x),
            fits(-self.y),
            fits(-self.z),
        ensures
            r@ == (-self.x, -self.y, -self.z),
    {
        Point { x: -self.x, y: -self.y, z: -self.z }
    }
}

impl From<[i64; 3]> for Point {
    fn from(c: [i64; 3]) -> (r: Point)
        ensures
            r@ == (c[0] as int, c[1] as int, c[2] as int),
    {
        Point { x: c[0], y: c[1], z: c[2] }
    }
}

impl vstd::std_specs::convert::FromSpecImpl<[i64; 3]> for Point {
    open spec fn obeys_from_spec() -> bool {
        true
    }

    open spec fn from_spec(c: [i64; 3]) -> Point {
        Point { x: c[0], y: c[1], z: c[2] }
    }
}

impl Vector {
    pub fn new(x: i64, y: i64, z: i64) -> (r: Vector)
        ensures
            r@ == (x as int, y as int, z as int),
    {
        Vector { x, y, z }
    }

    /// The sum of two vectors.
    pub fn add(&self, other: &Vector) -> (r: Vector)
        requires
            fits(self.x + other.x),
            fits(self.y + other.y),
            fits(self.z + other.z),
        ensures
            r@ == (self.x + other.x, self.y + other.y, self.z + other.z),
    {
        Vector { x: self.x + other.x, y: self.y + other.y, z: self.z + other.z }
    }
}

impl From<[i64; 3]> for Vector {
    fn from(c: [i64; 3]) -> (r: Vector)
        ensures
            r@ == (c[0] as int, c[1] as int, c[2] as int),
    {
        Vector { x: c[0], y: c[1], z: c[2] }
    }
}

impl vstd::std_specs::convert::FromSpecImpl<[i64; 3]> for Vector {
    open spec fn obeys_from_spec() -> bool {
        true
    }

    open spec fn from_spec(c: [i64; 3]) -> Vector {
        Vector { x: c[0], y: c[1], z: c[2] }
    }
}

impl Matrix<4> {
    /// Coordinate `row` of the image of homogeneous `(x, y, z, w)`.
    fn image_coordinate(&self, row: usize, x: i64, y: i64, z: i64, w: i64) -> (r: i64)
        requires
            row < 3,
            image_magnitude(self@, row as int, (x as int, y as int, z as int),
                w as int) <= i64::MAX,
        ensures
            r == image_coordinate(self@, row as int, (x as int, y as int, z as int), w as int),
    {
        let e = self.entries[row];
        proof {
            lemma_abs_mul(e[0] as int, x as int);
            lemma_abs_mul(e[1] as int, y as int);
            lemma_abs_mul(e[2] as int, z as int);
            lemma_abs_mul(e[3] as int, w as int);
            assert(abs(e[0] as int) * abs(x as int) >= 0) by (nonlinear_arith);
            assert(abs(e[1] as int) * abs(y as int) >= 0) by (nonlinear_arith);
            assert(abs(e[2] as int) * abs(z as int) >= 0) by (nonlinear_arith);
            assert(abs(e[3] as int) * abs(w as int) >= 0) by (nonlinear_arith);
        }
        e[0] * x + e[1] * y + e[2] * z + e[3] * w
    }

    /// The point that this transform moves `p` to: translation applies.
    pub fn apply_to_point(&self, p: &Point) -> (r: Point)
        requires
            image_fits(self@, p@, 1),
        ensures
            r@ == image(self@, p@, 1),
    {
        Point {
            x: self.image_coordinate(0, p.x, p.y, p.z, 1),
            y: self.image_coordinate(1, p.x, p.y, p.z, 1),
            z: self.image_coordinate(2, p.x, p.y, p.z, 1),
        }
    }

    /// The vector that this transform turns `v` into: translation does not apply.
    pub fn apply_to_vector(&self, v: &Vector) -> (r: Vector)
        requires
            image_fits(self@, v@, 0),
        ensures
            r@ == image(self@, v@, 0),
    {
        Vector {
            x: self.image_coordinate(0, v.x, v.y, v.z, 0),
            y: self.image_coordinate(1, v.x, v.y, v.z, 0),
            z: self.image_coordinate(2, v.x, v.y, v.z, 0),
        }
    }
}

/// The image under a 4×4 matrix given by its entries, written out.
pub proof fn lemma_image4(
    a00: int, a01: int, a02: int, a03: int, a10: int, a11: int, a12: int, a13: int, a20: int,
        a21: int, a22: int, a23: int, a30: int, a31: int, a32: int, a33: int,
    p: (int, int, int),
    w: int,
)
    ensures
        image(matrix4(a00, a01, a02, a03, a10, a11, a12, a13, a20, a21, a22, a23, a30, a31, a32,
            a33), p, w) == (
            a00 * p.0 + a01 * p.1 + a02 * p.2 + a03 * w,
            a10 * p.0 + a11 * p.1 + a12 * p.2 + a13 * w,
            a20 * p.0 + a21 * p.1 + a22 * p.2 + a23 * w,
        ),
{
}

} // verus!
