//! The affine transforms of 3-D space as 4×4 matrices whose bottom row is `[0, 0, 0, 1]`.
use vstd::prelude::*;
use crate::matrix::Matrix;

verus! {

pub open spec fn translation(x: int, y: int, z: int) -> Seq<Seq<int>> {
    seq![seq![1, 0, 0, x], seq![0, 1, 0, y], seq![0, 0, 1, z], seq![0, 0, 0, 1]]
}

pub open spec fn scaling(x: int, y: int, z: int) -> Seq<Seq<int>> {
    seq![seq![x, 0, 0, 0], seq![0, y, 0, 0], seq![0, 0, z, 0], seq![0, 0, 0, 1]]
}

pub open spec fn shearing(x_y: int, x_z: int, y_x: int, y_z: int, z_x: int,
    z_y: int) -> Seq<Seq<int>> {
    seq![seq![1, x_y, x_z, 0], seq![y_x, 1, y_z, 0], seq![z_x, z_y, 1, 0], seq![0, 0, 0, 1]]
}

/// The cosine of `turns` quarter turns.
pub open spec fn quarter_cos(turns: int) -> int {
    let t = turns % 4;
    if t == 0 {
        1
    } else if t == 2 {
        -1
    } else {
        0
    }
}

/// The sine of `turns` quarter turns.
pub open spec fn quarter_sin(turns: int) -> int {
    let t = turns % 4;
    if t == 1 {
        1
    } else if t == 3 {
        -1
    } else {
        0
    }
}

/// Counter-clockwise rotation about the x axis, seen from positive x towards the origin.
pub open spec fn rotation_x(turns: int) -> Seq<Seq<int>> {
    let (c, s) = (quarter_cos(turns), quarter_sin(turns));
    seq![seq![1, 0, 0, 0], seq![0, c, -s, 0], seq![0, s, c, 0], seq![0, 0, 0, 1]]
}

/// Counter-clockwise rotation about the y axis, seen from positive y towards the origin.
pub open spec fn rotation_y(turns: int) -> Seq<Seq<int>> {
    let (c, s) = (quarter_cos(turns), quarter_sin(turns));
    seq![seq![c, 0, s, 0], seq![0, 1, 0, 0], seq![-s, 0, c, 0], seq![0, 0, 0, 1]]
}

/// Counter-clockwise rotation about the z axis, seen from positive z towards the origin.
pub open spec fn rotation_z(turns: int) -> Seq<Seq<int>> {
    let (c, s) = (quarter_cos(turns), quarter_sin(turns));
    seq![seq![c, -s, 0, 0], seq![s, c, 0, 0], seq![0, 0, 1, 0], seq![0, 0, 0, 1]]
}

/// The cosine and sine of `turns` quarter turns.
fn quarter_cos_sin(turns: u32) -> (r: (i64, i64))
    ensures
        r.0 == quarter_cos(turns as int),
        r.1 == quarter_sin(turns as int),
{
    let t = turns % 4;
    if t == 0 {
        (1, 0)
    } else if t == 1 {
        (0, 1)
    } else if t == 2 {
        (-1, 0)
    } else {
        (0, -1)
    }
}

impl Matrix<4> {
    /// Moves a point by `(x, y, z)`; leaves vectors unchanged.
    pub fn translation(x: i64, y: i64, z: i64) -> (r: Matrix<4>)
        ensures
            r@ == translation(x as int, y as int, z as int),
    {
        let r = Matrix { entries: [[1, 0, 0, x], [0, 1, 0, y], [0, 0, 1, z], [0, 0, 0, 1]] };
        assert(r@ =~~= translation(x as int, y as int, z as int));
        r
    }

    /// Scales each axis by its own factor.
    pub fn scaling(x: i64, y: i64, z: i64) -> (r: Matrix<4>)
        ensures
            r@ == scaling(x as int, y as int, z as int),
    {
        let r = Matrix { entries: [[x, 0, 0, 0], [0, y, 0, 0], [0, 0, z, 0], [0, 0, 0, 1]] };
        assert(r@ =~~= scaling(x as int, y as int, z as int));
        r
    }

    /// Rotation by `turns` quarter turns about the x axis.
    pub fn rotation_x(turns: u32) -> (r: Matrix<4>)
        ensures
            r@ == rotation_x(turns as int),
    {
        let (c, s) = quarter_cos_sin(turns);
        let r = Matrix { entries: [[1, 0, 0, 0], [0, c, -s, 0], [0, s, c, 0], [0, 0, 0, 1]] };
        assert(r@ =~~= rotation_x(turns as int));
        r
    }

    /// Rotation by `turns` quarter turns about the y axis.
    pub fn rotation_y(turns: u32) -> (r: Matrix<4>)
        ensures
            r@ == rotation_y(turns as int),
    {
        let (c, s) = quarter_cos_sin(turns);
        let r = Matrix { entries: [[c, 0, s, 0], [0, 1, 0, 0], [-s, 0, c, 0], [0, 0, 0, 1]] };
        assert(r@ =~~= rotation_y(turns as int));
        r
    }

    /// Rotation by `turns` quarter turns about the z axis.
    pub fn rotation_z(turns: u32) -> (r: Matrix<4>)
        ensures
            r@ == rotation_z(turns as int),
    {
        let (c, s) = quarter_cos_sin(turns);
        let r = Matrix { entries: [[c, -s, 0, 0], [s, c, 0, 0], [0, 0, 1, 0], [0, 0, 0, 1]] };
        assert(r@ =~~= rotation_z(turns as int));
        r
    }

    /// Moves each coordinate in proportion to the other two: `x_y` is the share of `y`
    /// added to `x`, and so on.
    pub fn shearing(x_y: i64, x_z: i64, y_x: i64, y_z: i64, z_x: i64, z_y: i64) -> (r: Matrix<4>)
        ensures
            r@ == shearing(x_y as int, x_z as int, y_x as int, y_z as int, z_x as int, z_y as int),
    {
        let r = Matrix { entries: [[1, x_y, x_z, 0], [y_x, 1, y_z, 0], [z_x, z_y, 1, 0], [0, 0, 0,
            1]] };
        assert(r@ =~~= shearing(x_y as int, x_z as int, y_x as int, y_z as int, z_x as int,
            z_y as int));
        r
    }
}

} // verus!
