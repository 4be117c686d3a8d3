//! Algebraic laws of the matrix model, proved for every matrix they speak of.
use vstd::prelude::*;
use vstd::arithmetic::div_mod::lemma_add_mod_noop;
use vstd::arithmetic::mul::{
    lemma_mul_is_associative, lemma_mul_is_commutative, lemma_mul_is_distributive_add,
    lemma_mul_is_distributive_add_other_way, lemma_mul_unary_negation,
};
use crate::algebra::{
    adjugate, cofactor, cofactor_expansion, determinant, dot, identity, is_square, lemma_cofactors4,
    lemma_product4, matrix4, product, scaled, transposed,
};
use crate::laplace::lemma_product_with_adjugate;
use crate::point::{image, lemma_image4};
use crate::transform::{
    quarter_cos, quarter_sin, rotation_x, rotation_y, rotation_z, scaling, translation,
};

verus! {

/// Transposing twice gives back the matrix.
pub proof fn lemma_transpose_involution(m: Seq<Seq<int>>, n: nat)
    requires
        is_square(m, n),
    ensures
        transposed(transposed(m)) == m,
{
    assert(transposed(transposed(m)) =~~= m);
}

/// The identity matrix is its own transpose.
pub proof fn lemma_identity_is_symmetric(n: nat)
    ensures
        transposed(identity(n)) == identity(n),
{
    assert(transposed(identity(n)) =~~= identity(n));
}

proof fn lemma_dot_identity(m: Seq<Seq<int>>, n: nat, row: int, col: int, k: int)
    requires
        is_square(m, n),
        0 <= row < n,
        0 <= col < n,
        0 <= k <= n,
    ensures
        dot(m, identity(n), row, col, k) == if col < k { m[row][col] } else { 0 },
    decreases k,
{
    if k > 0 {
        lemma_dot_identity(m, n, row, col, k - 1);
    }
}

/// Multiplying by the identity on the right leaves a matrix unchanged.
pub proof fn lemma_identity_right(m: Seq<Seq<int>>, n: nat)
    requires
        is_square(m, n),
    ensures
        product(m, identity(n)) == m,
{
    assert forall|r: int, c: int| 0 <= r < n && 0 <= c < n implies #[trigger] product(m,
        identity(n))[r][c]
        == m[r][c] by {
        lemma_dot_identity(m, n, r, c, n as int);
    }
    assert(product(m, identity(n)) =~~= m);
}

/// From three rows up, the determinant is the sum over row 0 of each entry times its
/// cofactor.
pub proof fn lemma_determinant_is_cofactor_expansion(m: Seq<Seq<int>>, n: nat)
    requires
        is_square(m, n),
        n >= 3,
    ensures
        determinant(m) == cofactor_expansion(m, n as int),
        n == 3 ==> determinant(m) == m[0][0] * cofactor(m, 0, 0) + m[0][1] * cofactor(m, 0, 1)
            + m[0][2] * cofactor(m, 0, 2),
        n == 4 ==> determinant(m) == m[0][0] * cofactor(m, 0, 0) + m[0][1] * cofactor(m, 0, 1)
            + m[0][2] * cofactor(m, 0, 2) + m[0][3] * cofactor(m, 0, 3),
{
    assert(cofactor_expansion(m, 0) == 0);
    assert(cofactor_expansion(m, 1) == m[0][0] * cofactor(m, 0, 0));
    assert(cofactor_expansion(m, 2) == cofactor_expansion(m, 1) + m[0][1] * cofactor(m, 0, 1));
    assert(cofactor_expansion(m, 3) == cofactor_expansion(m, 2) + m[0][2] * cofactor(m, 0, 2));
    if n == 4 {
        assert(cofactor_expansion(m, 4) == cofactor_expansion(m, 3) + m[0][3] * cofactor(m, 0, 3));
    }
}

/// A translation leaves every vector unchanged.
pub proof fn lemma_translation_keeps_vectors(x: int, y: int, z: int, v: (int, int, int))
    ensures
        image(translation(x, y, z), v, 0) == v,
{
    assert(translation(x, y, z) =~~= matrix4(1, 0, 0, x, 0, 1, 0, y, 0, 0, 1, z, 0, 0, 0, 1));
    lemma_image4(1, 0, 0, x, 0, 1, 0, y, 0, 0, 1, z, 0, 0, 0, 1, v, 0);
}

proof fn lemma_quarter_turn_addition(a: int, b: int)
    ensures
        quarter_cos(a + b) == quarter_cos(a) * quarter_cos(b) - quarter_sin(a) * quarter_sin(b),
        quarter_sin(a + b) == quarter_sin(a) * quarter_cos(b) + quarter_cos(a) * quarter_sin(b),
{
    lemma_add_mod_noop(a, b, 4);
    let (i, j) = (a % 4, b % 4);
    assert(0 <= i < 4 && 0 <= j < 4);
    assert((i + j) % 4 == if i + j < 4 { i + j } else { i + j - 4 });
}

/// Rotating about the x axis by `b` quarter turns and then by `a` is rotating by `a + b`.
pub proof fn lemma_rotation_x_composition(a: int, b: int)
    ensures
        product(rotation_x(a), rotation_x(b)) == rotation_x(a + b),
{
    lemma_quarter_turn_addition(a, b);
    let (ca, sa, cb, sb) = (quarter_cos(a), quarter_sin(a), quarter_cos(b), quarter_sin(b));
    assert(rotation_x(a) == matrix4(1, 0, 0, 0, 0, ca, -sa, 0, 0, sa, ca, 0, 0, 0, 0, 1));
    assert(rotation_x(b) == matrix4(1, 0, 0, 0, 0, cb, -sb, 0, 0, sb, cb, 0, 0, 0, 0, 1));
    lemma_product4(
        1, 0, 0, 0, 0, ca, -sa, 0, 0, sa, ca, 0, 0, 0, 0, 1,
        1, 0, 0, 0, 0, cb, -sb, 0, 0, sb, cb, 0, 0, 0, 0, 1,
    );
    lemma_mul_unary_negation(ca, sb);
    lemma_mul_unary_negation(sa, cb);
    lemma_mul_unary_negation(sa, sb);
    assert(product(rotation_x(a), rotation_x(b)) =~~= rotation_x(a + b));
}

/// Rotating about the y axis by `b` quarter turns and then by `a` is rotating by `a + b`.
pub proof fn lemma_rotation_y_composition(a: int, b: int)
    ensures
        product(rotation_y(a), rotation_y(b)) == rotation_y(a + b),
{
    lemma_quarter_turn_addition(a, b);
    let (ca, sa, cb, sb) = (quarter_cos(a), quarter_sin(a), quarter_cos(b), quarter_sin(b));
    assert(rotation_y(a) == matrix4(ca, 0, sa, 0, 0, 1, 0, 0, -sa, 0, ca, 0, 0, 0, 0, 1));
    assert(rotation_y(b) == matrix4(cb, 0, sb, 0, 0, 1, 0, 0, -sb, 0, cb, 0, 0, 0, 0, 1));
    lemma_product4(
        ca, 0, sa, 0, 0, 1, 0, 0, -sa, 0, ca, 0, 0, 0, 0, 1,
        cb, 0, sb, 0, 0, 1, 0, 0, -sb, 0, cb, 0, 0, 0, 0, 1,
    );
    lemma_mul_unary_negation(ca, sb);
    lemma_mul_unary_negation(sa, cb);
    lemma_mul_unary_negation(sa, sb);
    assert(product(rotation_y(a), rotation_y(b)) =~~= rotation_y(a + b));
}

/// Rotating about the z axis by `b` quarter turns and then by `a` is rotating by `a + b`.
pub proof fn lemma_rotation_z_composition(a: int, b: int)
    ensures
        product(rotation_z(a), rotation_z(b)) == rotation_z(a + b),
{
    lemma_quarter_turn_addition(a, b);
    let (ca, sa, cb, sb) = (quarter_cos(a), quarter_sin(a), quarter_cos(b), quarter_sin(b));
    assert(rotation_z(a) == matrix4(ca, -sa, 0, 0, sa, ca, 0, 0, 0, 0, 1, 0, 0, 0, 0, 1));
    assert(rotation_z(b) == matrix4(cb, -sb, 0, 0, sb, cb, 0, 0, 0, 0, 1, 0, 0, 0, 0, 1));
    lemma_product4(
        ca, -sa, 0, 0, sa, ca, 0, 0, 0, 0, 1, 0, 0, 0, 0, 1,
        cb, -sb, 0, 0, sb, cb, 0, 0, 0, 0, 1, 0, 0, 0, 0, 1,
    );
    lemma_mul_unary_negation(ca, sb);
    lemma_mul_unary_negation(sa, cb);
    lemma_mul_unary_negation(sa, sb);
    assert(product(rotation_z(a), rotation_z(b)) =~~= rotation_z(a + b));
}

/// The exact inverse of a scaling divides each coordinate by its own factor: its
/// determinant is `x * y * z`, and its adjugate maps `v` to
/// `(y * z * v.x, x * z * v.y, x * y * v.z)`, which is `determinant * (v.x / x, v.y / y, v.z / z)`.
pub proof fn lemma_scaling_inverse(x: int, y: int, z: int, v: (int, int, int))
    ensures
        determinant(scaling(x, y, z)) == x * y * z,
        image(adjugate(scaling(x, y, z)), v, 0) == (y * z * v.0, x * z * v.1, x * y * v.2),
        x * image(adjugate(scaling(x, y, z)), v, 0).0 == determinant(scaling(x, y, z)) * v.0,
        y * image(adjugate(scaling(x, y, z)), v, 0).1 == determinant(scaling(x, y, z)) * v.1,
        z * image(adjugate(scaling(x, y, z)), v, 0).2 == determinant(scaling(x, y, z)) * v.2,
{
    let s = scaling(x, y, z);
    assert(s =~~= matrix4(x, 0, 0, 0, 0, y, 0, 0, 0, 0, z, 0, 0, 0, 0, 1));
    lemma_cofactors4(x, 0, 0, 0, 0, y, 0, 0, 0, 0, z, 0, 0, 0, 0, 1);
    lemma_determinant_is_cofactor_expansion(s, 4);
    assert(x * (y * z) == x * y * z) by (nonlinear_arith);
    assert(x * (y * z) == y * (x * z)) by (nonlinear_arith);
    assert(x * (y * z) == z * (x * y)) by (nonlinear_arith);
    assert(cofactor(s, 0, 0) == y * z) by {
        assert(y * (z * 1 - 0 * 0) == y * z) by (nonlinear_arith);
    }
    assert(cofactor(s, 1, 1) == x * z) by {
        assert(x * (z * 1 - 0 * 0) == x * z) by (nonlinear_arith);
    }
    assert(cofactor(s, 2, 2) == x * y) by {
        assert(x * (y * 1 - 0 * 0) == x * y) by (nonlinear_arith);
    }
    assert(cofactor(s, 3, 3) == x * y * z) by {
        assert(x * (y * z - 0 * 0) == x * y * z) by (nonlinear_arith);
    }
    assert(x * 0 == 0 && y * 0 == 0 && z * 0 == 0 && 0 * x == 0 && 0 * y == 0 && 0 * z == 0);
    let adj = matrix4(y * z, 0, 0, 0, 0, x * z, 0, 0, 0, 0, x * y, 0, 0, 0, 0, x * y * z);
    assert(adjugate(s) =~~= adj);
    lemma_image4(y * z, 0, 0, 0, 0, x * z, 0, 0, 0, 0, x * y, 0, 0, 0, 0, x * y * z, v, 0);
    assert(x * (y * z * v.0) == x * y * z * v.0) by (nonlinear_arith);
    assert(y * (x * z * v.1) == x * y * z * v.1) by (nonlinear_arith);
    assert(z * (x * y * v.2) == x * y * z * v.2) by (nonlinear_arith);
}

/// The product of 4×4 matrices is associative, so a chain of transforms may be
/// composed in any grouping.
pub proof fn lemma_product4_associative(a: Seq<Seq<int>>, b: Seq<Seq<int>>, c: Seq<Seq<int>>)
    requires
        is_square(a, 4),
        is_square(b, 4),
        is_square(c, 4),
    ensures
        product(product(a, b), c) == product(a, product(b, c)),
{
    let a00 = a[0][0];
    let a01 = a[0][1];
    let a02 = a[0][2];
    let a03 = a[0][3];
    let a10 = a[1][0];
    let a11 = a[1][1];
    let a12 = a[1][2];
    let a13 = a[1][3];
    let a20 = a[2][0];
    let a21 = a[2][1];
    let a22 = a[2][2];
    let a23 = a[2][3];
    let a30 = a[3][0];
    let a31 = a[3][1];
    let a32 = a[3][2];
    let a33 = a[3][3];
    let b00 = b[0][0];
    let b01 = b[0][1];
    let b02 = b[0][2];
    let b03 = b[0][3];
    let b10 = b[1][0];
    let b11 = b[1][1];
    let b12 = b[1][2];
    let b13 = b[1][3];
    let b20 = b[2][0];
    let b21 = b[2][1];
    let b22 = b[2][2];
    let b23 = b[2][3];
    let b30 = b[3][0];
    let b31 = b[3][1];
    let b32 = b[3][2];
    let b33 = b[3][3];
    let c00 = c[0][0];
    let c01 = c[0][1];
    let c02 = c[0][2];
    let c03 = c[0][3];
    let c10 = c[1][0];
    let c11 = c[1][1];
    let c12 = c[1][2];
    let c13 = c[1][3];
    let c20 = c[2][0];
    let c21 = c[2][1];
    let c22 = c[2][2];
    let c23 = c[2][3];
    let c30 = c[3][0];
    let c31 = c[3][1];
    let c32 = c[3][2];
    let c33 = c[3][3];
    assert(a =~~= matrix4(a00, a01, a02, a03, a10, a11, a12, a13, a20, a21, a22, a23, a30, a31, a32,
        a33));
    assert(b =~~= matrix4(b00, b01, b02, b03, b10, b11, b12, b13, b20, b21, b22, b23, b30, b31, b32,
        b33));
    assert(c =~~= matrix4(c00, c01, c02, c03, c10, c11, c12, c13, c20, c21, c22, c23, c30, c31, c32,
        c33));
    lemma_product4(a00, a01, a02, a03, a10, a11, a12, a13, a20, a21, a22, a23, a30, a31, a32, a33,
        b00, b01, b02, b03, b10, b11, b12, b13, b20, b21, b22, b23, b30, b31, b32, b33);
    lemma_product4(b00, b01, b02, b03, b10, b11, b12, b13, b20, b21, b22, b23, b30, b31, b32, b33,
        c00, c01, c02, c03, c10, c11, c12, c13, c20, c21, c22, c23, c30, c31, c32, c33);
    lemma_product4(a00 * b00 + a01 * b10 + a02 * b20 + a03 * b30, a00 * b01 + a01 * b11 + a02 * b21
        + a03 * b31, a00 * b02 + a01 * b12 + a02 * b22 + a03 * b32, a00 * b03 + a01 * b13
        + a02 * b23 + a03 * b33, a10 * b00 + a11 * b10 + a12 * b20 + a13 * b30, a10 * b01
        + a11 * b11 + a12 * b21 + a13 * b31, a10 * b02 + a11 * b12 + a12 * b22 + a13 * b32,
        a10 * b03 + a11 * b13 + a12 * b23 + a13 * b33, a20 * b00 + a21 * b10 + a22 * b20
        + a23 * b30, a20 * b01 + a21 * b11 + a22 * b21 + a23 * b31, a20 * b02 + a21 * b12
        + a22 * b22 + a23 * b32, a20 * b03 + a21 * b13 + a22 * b23 + a23 * b33, a30 * b00
        + a31 * b10 + a32 * b20 + a33 * b30, a30 * b01 + a31 * b11 + a32 * b21 + a33 * b31,
        a30 * b02 + a31 * b12 + a32 * b22 + a33 * b32, a30 * b03 + a31 * b13 + a32 * b23
        + a33 * b33, c00, c01, c02, c03, c10, c11, c12, c13, c20, c21, c22, c23, c30, c31, c32,
        c33);
    lemma_product4(a00, a01, a02, a03, a10, a11, a12, a13, a20, a21, a22, a23, a30, a31, a32, a33,
        b00 * c00 + b01 * c10 + b02 * c20 + b03 * c30, b00 * c01 + b01 * c11 + b02 * c21
        + b03 * c31, b00 * c02 + b01 * c12 + b02 * c22 + b03 * c32, b00 * c03 + b01 * c13
        + b02 * c23 + b03 * c33, b10 * c00 + b11 * c10 + b12 * c20 + b13 * c30, b10 * c01
        + b11 * c11 + b12 * c21 + b13 * c31, b10 * c02 + b11 * c12 + b12 * c22 + b13 * c32,
        b10 * c03 + b11 * c13 + b12 * c23 + b13 * c33, b20 * c00 + b21 * c10 + b22 * c20
        + b23 * c30, b20 * c01 + b21 * c11 + b22 * c21 + b23 * c31, b20 * c02 + b21 * c12
        + b22 * c22 + b23 * c32, b20 * c03 + b21 * c13 + b22 * c23 + b23 * c33, b30 * c00
        + b31 * c10 + b32 * c20 + b33 * c30, b30 * c01 + b31 * c11 + b32 * c21 + b33 * c31,
        b30 * c02 + b31 * c12 + b32 * c22 + b33 * c32, b30 * c03 + b31 * c13 + b32 * c23
        + b33 * c33);
    lemma_mul_is_distributive_add_other_way(c00, a00 * b00 + a01 * b10 + a02 * b20, a03 * b30);
    lemma_mul_is_distributive_add_other_way(c00, a00 * b00 + a01 * b10, a02 * b20);
    lemma_mul_is_distributive_add_other_way(c00, a00 * b00, a01 * b10);
    lemma_mul_is_distributive_add_other_way(c10, a00 * b01 + a01 * b11 + a02 * b21, a03 * b31);
    lemma_mul_is_distributive_add_other_way(c10, a00 * b01 + a01 * b11, a02 * b21);
    lemma_mul_is_distributive_add_other_way(c10, a00 * b01, a01 * b11);
    lemma_mul_is_distributive_add_other_way(c20, a00 * b02 + a01 * b12 + a02 * b22, a03 * b32);
    lemma_mul_is_distributive_add_other_way(c20, a00 * b02 + a01 * b12, a02 * b22);
    lemma_mul_is_distributive_add_other_way(c20, a00 * b02, a01 * b12);
    lemma_mul_is_distributive_add_other_way(c30, a00 * b03 + a01 * b13 + a02 * b23, a03 * b33);
    lemma_mul_is_distributive_add_other_way(c30, a00 * b03 + a01 * b13, a02 * b23);
    lemma_mul_is_distributive_add_other_way(c30, a00 * b03, a01 * b13);
    lemma_mul_is_distributive_add(a00, b00 * c00 + b01 * c10 + b02 * c20, b03 * c30);
    lemma_mul_is_distributive_add(a00, b00 * c00 + b01 * c10, b02 * c20);
    lemma_mul_is_distributive_add(a00, b00 * c00, b01 * c10);
    lemma_mul_is_associative(a00, b00, c00);
    lemma_mul_is_associative(a00, b01, c10);
    lemma_mul_is_associative(a00, b02, c20);
    lemma_mul_is_associative(a00, b03, c30);
    lemma_mul_is_distributive_add(a01, b10 * c00 + b11 * c10 + b12 * c20, b13 * c30);
    lemma_mul_is_distributive_add(a01, b10 * c00 + b11 * c10, b12 * c20);
    lemma_mul_is_distributive_add(a01, b10 * c00, b11 * c10);
    lemma_mul_is_associative(a01, b10, c00);
    lemma_mul_is_associative(a01, b11, c10);
    lemma_mul_is_associative(a01, b12, c20);
    lemma_mul_is_associative(a01, b13, c30);
    lemma_mul_is_distributive_add(a02, b20 * c00 + b21 * c10 + b22 * c20, b23 * c30);
    lemma_mul_is_distributive_add(a02, b20 * c00 + b21 * c10, b22 * c20);
    lemma_mul_is_distributive_add(a02, b20 * c00, b21 * c10);
    lemma_mul_is_associative(a02, b20, c00);
    lemma_mul_is_associative(a02, b21, c10);
    lemma_mul_is_associative(a02, b22, c20);
    lemma_mul_is_associative(a02, b23, c30);
    lemma_mul_is_distributive_add(a03, b30 * c00 + b31 * c10 + b32 * c20, b33 * c30);
    lemma_mul_is_distributive_add(a03, b30 * c00 + b31 * c10, b32 * c20);
    lemma_mul_is_distributive_add(a03, b30 * c00, b31 * c10);
    lemma_mul_is_associative(a03, b30, c00);
    lemma_mul_is_associative(a03, b31, c10);
    lemma_mul_is_associative(a03, b32, c20);
    lemma_mul_is_associative(a03, b33, c30);
    lemma_mul_is_distributive_add_other_way(c01, a00 * b00 + a01 * b10 + a02 * b20, a03 * b30);
    lemma_mul_is_distributive_add_other_way(c01, a00 * b00 + a01 * b10, a02 * b20);
    lemma_mul_is_distributive_add_other_way(c01, a00 * b00, a01 * b10);
    lemma_mul_is_distributive_add_other_way(c11, a00 * b01 + a01 * b11 + a02 * b21, a03 * b31);
    lemma_mul_is_distributive_add_other_way(c11, a00 * b01 + a01 * b11, a02 * b21);
    lemma_mul_is_distributive_add_other_way(c11, a00 * b01, a01 * b11);
    lemma_mul_is_distributive_add_other_way(c21, a00 * b02 + a01 * b12 + a02 * b22, a03 * b32);
    lemma_mul_is_distributive_add_other_way(c21, a00 * b02 + a01 * b12, a02 * b22);
    lemma_mul_is_distributive_add_other_way(c21, a00 * b02, a01 * b12);
    lemma_mul_is_distributive_add_other_way(c31, a00 * b03 + a01 * b13 + a02 * b23, a03 * b33);
    lemma_mul_is_distributive_add_other_way(c31, a00 * b03 + a01 * b13, a02 * b23);
    lemma_mul_is_distributive_add_other_way(c31, a00 * b03, a01 * b13);
    lemma_mul_is_distributive_add(a00, b00 * c01 + b01 * c11 + b02 * c21, b03 * c31);
    lemma_mul_is_distributive_add(a00, b00 * c01 + b01 * c11, b02 * c21);
    lemma_mul_is_distributive_add(a00, b00 * c01, b01 * c11);
    lemma_mul_is_associative(a00, b00, c01);
    lemma_mul_is_associative(a00, b01, c11);
    lemma_mul_is_associative(a00, b02, c21);
    lemma_mul_is_associative(a00, b03, c31);
    lemma_mul_is_distributive_add(a01, b10 * c01 + b11 * c11 + b12 * c21, b13 * c31);
    lemma_mul_is_distributive_add(a01, b10 * c01 + b11 * c11, b12 * c21);
    lemma_mul_is_distributive_add(a01, b10 * c01, b11 * c11);
    lemma_mul_is_associative(a01, b10, c01);
    lemma_mul_is_associative(a01, b11, c11);
    lemma_mul_is_associative(a01, b12, c21);
    lemma_mul_is_associative(a01, b13, c31);
    lemma_mul_is_distributive_add(a02, b20 * c01 + b21 * c11 + b22 * c21, b23 * c31);
    lemma_mul_is_distributive_add(a02, b20 * c01 + b21 * c11, b22 * c21);
    lemma_mul_is_distributive_add(a02, b20 * c01, b21 * c11);
    lemma_mul_is_associative(a02, b20, c01);
    lemma_mul_is_associative(a02, b21, c11);
    lemma_mul_is_associative(a02, b22, c21);
    lemma_mul_is_associative(a02, b23, c31);
    lemma_mul_is_distributive_add(a03, b30 * c01 + b31 * c11 + b32 * c21, b33 * c31);
    lemma_mul_is_distributive_add(a03, b30 * c01 + b31 * c11, b32 * c21);
    lemma_mul_is_distributive_add(a03, b30 * c01, b31 * c11);
    lemma_mul_is_associative(a03, b30, c01);
    lemma_mul_is_associative(a03, b31, c11);
    lemma_mul_is_associative(a03, b32, c21);
    lemma_mul_is_associative(a03, b33, c31);
    lemma_mul_is_distributive_add_other_way(c02, a00 * b00 + a01 * b10 + a02 * b20, a03 * b30);
    lemma_mul_is_distributive_add_other_way(c02, a00 * b00 + a01 * b10, a02 * b20);
    lemma_mul_is_distributive_add_other_way(c02, a00 * b00, a01 * b10);
    lemma_mul_is_distributive_add_other_way(c12, a00 * b01 + a01 * b11 + a02 * b21, a03 * b31);
    lemma_mul_is_distributive_add_other_way(c12, a00 * b01 + a01 * b11, a02 * b21);
    lemma_mul_is_distributive_add_other_way(c12, a00 * b01, a01 * b11);
    lemma_mul_is_distributive_add_other_way(c22, a00 * b02 + a01 * b12 + a02 * b22, a03 * b32);
    lemma_mul_is_distributive_add_other_way(c22, a00 * b02 + a01 * b12, a02 * b22);
    lemma_mul_is_distributive_add_other_way(c22, a00 * b02, a01 * b12);
    lemma_mul_is_distributive_add_other_way(c32, a00 * b03 + a01 * b13 + a02 * b23, a03 * b33);
    lemma_mul_is_distributive_add_other_way(c32, a00 * b03 + a01 * b13, a02 * b23);
    lemma_mul_is_distributive_add_other_way(c32, a00 * b03, a01 * b13);
    lemma_mul_is_distributive_add(a00, b00 * c02 + b01 * c12 + b02 * c22, b03 * c32);
    lemma_mul_is_distributive_add(a00, b00 * c02 + b01 * c12, b02 * c22);
    lemma_mul_is_distributive_add(a00, b00 * c02, b01 * c12);
    lemma_mul_is_associative(a00, b00, c02);
    lemma_mul_is_associative(a00, b01, c12);
    lemma_mul_is_associative(a00, b02, c22);
    lemma_mul_is_associative(a00, b03, c32);
    lemma_mul_is_distributive_add(a01, b10 * c02 + b11 * c12 + b12 * c22, b13 * c32);
    lemma_mul_is_distributive_add(a01, b10 * c02 + b11 * c12, b12 * c22);
    lemma_mul_is_distributive_add(a01, b10 * c02, b11 * c12);
    lemma_mul_is_associative(a01, b10, c02);
    lemma_mul_is_associative(a01, b11, c12);
    lemma_mul_is_associative(a01, b12, c22);
    lemma_mul_is_associative(a01, b13, c32);
    lemma_mul_is_distributive_add(a02, b20 * c02 + b21 * c12 + b22 * c22, b23 * c32);
    lemma_mul_is_distributive_add(a02, b20 * c02 + b21 * c12, b22 * c22);
    lemma_mul_is_distributive_add(a02, b20 * c02, b21 * c12);
    lemma_mul_is_associative(a02, b20, c02);
    lemma_mul_is_associative(a02, b21, c12);
    lemma_mul_is_associative(a02, b22, c22);
    lemma_mul_is_associative(a02, b23, c32);
    lemma_mul_is_distributive_add(a03, b30 * c02 + b31 * c12 + b32 * c22, b33 * c32);
    lemma_mul_is_distributive_add(a03, b30 * c02 + b31 * c12, b32 * c22);
    lemma_mul_is_distributive_add(a03, b30 * c02, b31 * c12);
    lemma_mul_is_associative(a03, b30, c02);
    lemma_mul_is_associative(a03, b31, c12);
    lemma_mul_is_associative(a03, b32, c22);
    lemma_mul_is_associative(a03, b33, c32);
    lemma_mul_is_distributive_add_other_way(c03, a00 * b00 + a01 * b10 + a02 * b20, a03 * b30);
    lemma_mul_is_distributive_add_other_way(c03, a00 * b00 + a01 * b10, a02 * b20);
    lemma_mul_is_distributive_add_other_way(c03, a00 * b00, a01 * b10);
    lemma_mul_is_distributive_add_other_way(c13, a00 * b01 + a01 * b11 + a02 * b21, a03 * b31);
    lemma_mul_is_distributive_add_other_way(c13, a00 * b01 + a01 * b11, a02 * b21);
    lemma_mul_is_distributive_add_other_way(c13, a00 * b01, a01 * b11);
    lemma_mul_is_distributive_add_other_way(c23, a00 * b02 + a01 * b12 + a02 * b22, a03 * b32);
    lemma_mul_is_distributive_add_other_way(c23, a00 * b02 + a01 * b12, a02 * b22);
    lemma_mul_is_distributive_add_other_way(c23, a00 * b02, a01 * b12);
    lemma_mul_is_distributive_add_other_way(c33, a00 * b03 + a01 * b13 + a02 * b23, a03 * b33);
    lemma_mul_is_distributive_add_other_way(c33, a00 * b03 + a01 * b13, a02 * b23);
    lemma_mul_is_distributive_add_other_way(c33, a00 * b03, a01 * b13);
    lemma_mul_is_distributive_add(a00, b00 * c03 + b01 * c13 + b02 * c23, b03 * c33);
    lemma_mul_is_distributive_add(a00, b00 * c03 + b01 * c13, b02 * c23);
    lemma_mul_is_distributive_add(a00, b00 * c03, b01 * c13);
    lemma_mul_is_associative(a00, b00, c03);
    lemma_mul_is_associative(a00, b01, c13);
    lemma_mul_is_associative(a00, b02, c23);
    lemma_mul_is_associative(a00, b03, c33);
    lemma_mul_is_distributive_add(a01, b10 * c03 + b11 * c13 + b12 * c23, b13 * c33);
    lemma_mul_is_distributive_add(a01, b10 * c03 + b11 * c13, b12 * c23);
    lemma_mul_is_distributive_add(a01, b10 * c03, b11 * c13);
    lemma_mul_is_associative(a01, b10, c03);
    lemma_mul_is_associative(a01, b11, c13);
    lemma_mul_is_associative(a01, b12, c23);
    lemma_mul_is_associative(a01, b13, c33);
    lemma_mul_is_distributive_add(a02, b20 * c03 + b21 * c13 + b22 * c23, b23 * c33);
    lemma_mul_is_distributive_add(a02, b20 * c03 + b21 * c13, b22 * c23);
    lemma_mul_is_distributive_add(a02, b20 * c03, b21 * c13);
    lemma_mul_is_associative(a02, b20, c03);
    lemma_mul_is_associative(a02, b21, c13);
    lemma_mul_is_associative(a02, b22, c23);
    lemma_mul_is_associative(a02, b23, c33);
    lemma_mul_is_distributive_add(a03, b30 * c03 + b31 * c13 + b32 * c23, b33 * c33);
    lemma_mul_is_distributive_add(a03, b30 * c03 + b31 * c13, b32 * c23);
    lemma_mul_is_distributive_add(a03, b30 * c03, b31 * c13);
    lemma_mul_is_associative(a03, b30, c03);
    lemma_mul_is_associative(a03, b31, c13);
    lemma_mul_is_associative(a03, b32, c23);
    lemma_mul_is_associative(a03, b33, c33);
    lemma_mul_is_distributive_add_other_way(c00, a10 * b00 + a11 * b10 + a12 * b20, a13 * b30);
    lemma_mul_is_distributive_add_other_way(c00, a10 * b00 + a11 * b10, a12 * b20);
    lemma_mul_is_distributive_add_other_way(c00, a10 * b00, a11 * b10);
    lemma_mul_is_distributive_add_other_way(c10, a10 * b01 + a11 * b11 + a12 * b21, a13 * b31);
    lemma_mul_is_distributive_add_other_way(c10, a10 * b01 + a11 * b11, a12 * b21);
    lemma_mul_is_distributive_add_other_way(c10, a10 * b01, a11 * b11);
    lemma_mul_is_distributive_add_other_way(c20, a10 * b02 + a11 * b12 + a12 * b22, a13 * b32);
    lemma_mul_is_distributive_add_other_way(c20, a10 * b02 + a11 * b12, a12 * b22);
    lemma_mul_is_distributive_add_other_way(c20, a10 * b02, a11 * b12);
    lemma_mul_is_distributive_add_other_way(c30, a10 * b03 + a11 * b13 + a12 * b23, a13 * b33);
    lemma_mul_is_distributive_add_other_way(c30, a10 * b03 + a11 * b13, a12 * b23);
    lemma_mul_is_distributive_add_other_way(c30, a10 * b03, a11 * b13);
    lemma_mul_is_distributive_add(a10, b00 * c00 + b01 * c10 + b02 * c20, b03 * c30);
    lemma_mul_is_distributive_add(a10, b00 * c00 + b01 * c10, b02 * c20);
    lemma_mul_is_distributive_add(a10, b00 * c00, b01 * c10);
    lemma_mul_is_associative(a10, b00, c00);
    lemma_mul_is_associative(a10, b01, c10);
    lemma_mul_is_associative(a10, b02, c20);
    lemma_mul_is_associative(a10, b03, c30);
    lemma_mul_is_distributive_add(a11, b10 * c00 + b11 * c10 + b12 * c20, b13 * c30);
    lemma_mul_is_distributive_add(a11, b10 * c00 + b11 * c10, b12 * c20);
    lemma_mul_is_distributive_add(a11, b10 * c00, b11 * c10);
    lemma_mul_is_associative(a11, b10, c00);
    lemma_mul_is_associative(a11, b11, c10);
    lemma_mul_is_associative(a11, b12, c20);
    lemma_mul_is_associative(a11, b13, c30);
    lemma_mul_is_distributive_add(a12, b20 * c00 + b21 * c10 + b22 * c20, b23 * c30);
    lemma_mul_is_distributive_add(a12, b20 * c00 + b21 * c10, b22 * c20);
    lemma_mul_is_distributive_add(a12, b20 * c00, b21 * c10);
    lemma_mul_is_associative(a12, b20, c00);
    lemma_mul_is_associative(a12, b21, c10);
    lemma_mul_is_associative(a12, b22, c20);
    lemma_mul_is_associative(a12, b23, c30);
    lemma_mul_is_distributive_add(a13, b30 * c00 + b31 * c10 + b32 * c20, b33 * c30);
    lemma_mul_is_distributive_add(a13, b30 * c00 + b31 * c10, b32 * c20);
    lemma_mul_is_distributive_add(a13, b30 * c00, b31 * c10);
    lemma_mul_is_associative(a13, b30, c00);
    lemma_mul_is_associative(a13, b31, c10);
    lemma_mul_is_associative(a13, b32, c20);
    lemma_mul_is_associative(a13, b33, c30);
    lemma_mul_is_distributive_add_other_way(c01, a10 * b00 + a11 * b10 + a12 * b20, a13 * b30);
    lemma_mul_is_distributive_add_other_way(c01, a10 * b00 + a11 * b10, a12 * b20);
    lemma_mul_is_distributive_add_other_way(c01, a10 * b00, a11 * b10);
    lemma_mul_is_distributive_add_other_way(c11, a10 * b01 + a11 * b11 + a12 * b21, a13 * b31);
    lemma_mul_is_distributive_add_other_way(c11, a10 * b01 + a11 * b11, a12 * b21);
    lemma_mul_is_distributive_add_other_way(c11, a10 * b01, a11 * b11);
    lemma_mul_is_distributive_add_other_way(c21, a10 * b02 + a11 * b12 + a12 * b22, a13 * b32);
    lemma_mul_is_distributive_add_other_way(c21, a10 * b02 + a11 * b12, a12 * b22);
    lemma_mul_is_distributive_add_other_way(c21, a10 * b02, a11 * b12);
    lemma_mul_is_distributive_add_other_way(c31, a10 * b03 + a11 * b13 + a12 * b23, a13 * b33);
    lemma_mul_is_distributive_add_other_way(c31, a10 * b03 + a11 * b13, a12 * b23);
    lemma_mul_is_distributive_add_other_way(c31, a10 * b03, a11 * b13);
    lemma_mul_is_distributive_add(a10, b00 * c01 + b01 * c11 + b02 * c21, b03 * c31);
    lemma_mul_is_distributive_add(a10, b00 * c01 + b01 * c11, b02 * c21);
    lemma_mul_is_distributive_add(a10, b00 * c01, b01 * c11);
    lemma_mul_is_associative(a10, b00, c01);
    lemma_mul_is_associative(a10, b01, c11);
    lemma_mul_is_associative(a10, b02, c21);
    lemma_mul_is_associative(a10, b03, c31);
    lemma_mul_is_distributive_add(a11, b10 * c01 + b11 * c11 + b12 * c21, b13 * c31);
    lemma_mul_is_distributive_add(a11, b10 * c01 + b11 * c11, b12 * c21);
    lemma_mul_is_distributive_add(a11, b10 * c01, b11 * c11);
    lemma_mul_is_associative(a11, b10, c01);
    lemma_mul_is_associative(a11, b11, c11);
    lemma_mul_is_associative(a11, b12, c21);
    lemma_mul_is_associative(a11, b13, c31);
    lemma_mul_is_distributive_add(a12, b20 * c01 + b21 * c11 + b22 * c21, b23 * c31);
    lemma_mul_is_distributive_add(a12, b20 * c01 + b21 * c11, b22 * c21);
    lemma_mul_is_distributive_add(a12, b20 * c01, b21 * c11);
    lemma_mul_is_associative(a12, b20, c01);
    lemma_mul_is_associative(a12, b21, c11);
    lemma_mul_is_associative(a12, b22, c21);
    lemma_mul_is_associative(a12, b23, c31);
    lemma_mul_is_distributive_add(a13, b30 * c01 + b31 * c11 + b32 * c21, b33 * c31);
    lemma_mul_is_distributive_add(a13, b30 * c01 + b31 * c11, b32 * c21);
    lemma_mul_is_distributive_add(a13, b30 * c01, b31 * c11);
    lemma_mul_is_associative(a13, b30, c01);
    lemma_mul_is_associative(a13, b31, c11);
    lemma_mul_is_associative(a13, b32, c21);
    lemma_mul_is_associative(a13, b33, c31);
    lemma_mul_is_distributive_add_other_way(c02, a10 * b00 + a11 * b10 + a12 * b20, a13 * b30);
    lemma_mul_is_distributive_add_other_way(c02, a10 * b00 + a11 * b10, a12 * b20);
    lemma_mul_is_distributive_add_other_way(c02, a10 * b00, a11 * b10);
    lemma_mul_is_distributive_add_other_way(c12, a10 * b01 + a11 * b11 + a12 * b21, a13 * b31);
    lemma_mul_is_distributive_add_other_way(c12, a10 * b01 + a11 * b11, a12 * b21);
    lemma_mul_is_distributive_add_other_way(c12, a10 * b01, a11 * b11);
    lemma_mul_is_distributive_add_other_way(c22, a10 * b02 + a11 * b12 + a12 * b22, a13 * b32);
    lemma_mul_is_distributive_add_other_way(c22, a10 * b02 + a11 * b12, a12 * b22);
    lemma_mul_is_distributive_add_other_way(c22, a10 * b02, a11 * b12);
    lemma_mul_is_distributive_add_other_way(c32, a10 * b03 + a11 * b13 + a12 * b23, a13 * b33);
    lemma_mul_is_distributive_add_other_way(c32, a10 * b03 + a11 * b13, a12 * b23);
    lemma_mul_is_distributive_add_other_way(c32, a10 * b03, a11 * b13);
    lemma_mul_is_distributive_add(a10, b00 * c02 + b01 * c12 + b02 * c22, b03 * c32);
    lemma_mul_is_distributive_add(a10, b00 * c02 + b01 * c12, b02 * c22);
    lemma_mul_is_distributive_add(a10, b00 * c02, b01 * c12);
    lemma_mul_is_associative(a10, b00, c02);
    lemma_mul_is_associative(a10, b01, c12);
    lemma_mul_is_associative(a10, b02, c22);
    lemma_mul_is_associative(a10, b03, c32);
    lemma_mul_is_distributive_add(a11, b10 * c02 + b11 * c12 + b12 * c22, b13 * c32);
    lemma_mul_is_distributive_add(a11, b10 * c02 + b11 * c12, b12 * c22);
    lemma_mul_is_distributive_add(a11, b10 * c02, b11 * c12);
    lemma_mul_is_associative(a11, b10, c02);
    lemma_mul_is_associative(a11, b11, c12);
    lemma_mul_is_associative(a11, b12, c22);
    lemma_mul_is_associative(a11, b13, c32);
    lemma_mul_is_distributive_add(a12, b20 * c02 + b21 * c12 + b22 * c22, b23 * c32);
    lemma_mul_is_distributive_add(a12, b20 * c02 + b21 * c12, b22 * c22);
    lemma_mul_is_distributive_add(a12, b20 * c02, b21 * c12);
    lemma_mul_is_associative(a12, b20, c02);
    lemma_mul_is_associative(a12, b21, c12);
    lemma_mul_is_associative(a12, b22, c22);
    lemma_mul_is_associative(a12, b23, c32);
    lemma_mul_is_distributive_add(a13, b30 * c02 + b31 * c12 + b32 * c22, b33 * c32);
    lemma_mul_is_distributive_add(a13, b30 * c02 + b31 * c12, b32 * c22);
    lemma_mul_is_distributive_add(a13, b30 * c02, b31 * c12);
    lemma_mul_is_associative(a13, b30, c02);
    lemma_mul_is_associative(a13, b31, c12);
    lemma_mul_is_associative(a13, b32, c22);
    lemma_mul_is_associative(a13, b33, c32);
    lemma_mul_is_distributive_add_other_way(c03, a10 * b00 + a11 * b10 + a12 * b20, a13 * b30);
    lemma_mul_is_distributive_add_other_way(c03, a10 * b00 + a11 * b10, a12 * b20);
    lemma_mul_is_distributive_add_other_way(c03, a10 * b00, a11 * b10);
    lemma_mul_is_distributive_add_other_way(c13, a10 * b01 + a11 * b11 + a12 * b21, a13 * b31);
    lemma_mul_is_distributive_add_other_way(c13, a10 * b01 + a11 * b11, a12 * b21);
    lemma_mul_is_distributive_add_other_way(c13, a10 * b01, a11 * b11);
    lemma_mul_is_distributive_add_other_way(c23, a10 * b02 + a11 * b12 + a12 * b22, a13 * b32);
    lemma_mul_is_distributive_add_other_way(c23, a10 * b02 + a11 * b12, a12 * b22);
    lemma_mul_is_distributive_add_other_way(c23, a10 * b02, a11 * b12);
    lemma_mul_is_distributive_add_other_way(c33, a10 * b03 + a11 * b13 + a12 * b23, a13 * b33);
    lemma_mul_is_distributive_add_other_way(c33, a10 * b03 + a11 * b13, a12 * b23);
    lemma_mul_is_distributive_add_other_way(c33, a10 * b03, a11 * b13);
    lemma_mul_is_distributive_add(a10, b00 * c03 + b01 * c13 + b02 * c23, b03 * c33);
    lemma_mul_is_distributive_add(a10, b00 * c03 + b01 * c13, b02 * c23);
    lemma_mul_is_distributive_add(a10, b00 * c03, b01 * c13);
    lemma_mul_is_associative(a10, b00, c03);
    lemma_mul_is_associative(a10, b01, c13);
    lemma_mul_is_associative(a10, b02, c23);
    lemma_mul_is_associative(a10, b03, c33);
    lemma_mul_is_distributive_add(a11, b10 * c03 + b11 * c13 + b12 * c23, b13 * c33);
    lemma_mul_is_distributive_add(a11, b10 * c03 + b11 * c13, b12 * c23);
    lemma_mul_is_distributive_add(a11, b10 * c03, b11 * c13);
    lemma_mul_is_associative(a11, b10, c03);
    lemma_mul_is_associative(a11, b11, c13);
    lemma_mul_is_associative(a11, b12, c23);
    lemma_mul_is_associative(a11, b13, c33);
    lemma_mul_is_distributive_add(a12, b20 * c03 + b21 * c13 + b22 * c23, b23 * c33);
    lemma_mul_is_distributive_add(a12, b20 * c03 + b21 * c13, b22 * c23);
    lemma_mul_is_distributive_add(a12, b20 * c03, b21 * c13);
    lemma_mul_is_associative(a12, b20, c03);
    lemma_mul_is_associative(a12, b21, c13);
    lemma_mul_is_associative(a12, b22, c23);
    lemma_mul_is_associative(a12, b23, c33);
    lemma_mul_is_distributive_add(a13, b30 * c03 + b31 * c13 + b32 * c23, b33 * c33);
    lemma_mul_is_distributive_add(a13, b30 * c03 + b31 * c13, b32 * c23);
    lemma_mul_is_distributive_add(a13, b30 * c03, b31 * c13);
    lemma_mul_is_associative(a13, b30, c03);
    lemma_mul_is_associative(a13, b31, c13);
    lemma_mul_is_associative(a13, b32, c23);
    lemma_mul_is_associative(a13, b33, c33);
    lemma_mul_is_distributive_add_other_way(c00, a20 * b00 + a21 * b10 + a22 * b20, a23 * b30);
    lemma_mul_is_distributive_add_other_way(c00, a20 * b00 + a21 * b10, a22 * b20);
    lemma_mul_is_distributive_add_other_way(c00, a20 * b00, a21 * b10);
    lemma_mul_is_distributive_add_other_way(c10, a20 * b01 + a21 * b11 + a22 * b21, a23 * b31);
    lemma_mul_is_distributive_add_other_way(c10, a20 * b01 + a21 * b11, a22 * b21);
    lemma_mul_is_distributive_add_other_way(c10, a20 * b01, a21 * b11);
    lemma_mul_is_distributive_add_other_way(c20, a20 * b02 + a21 * b12 + a22 * b22, a23 * b32);
    lemma_mul_is_distributive_add_other_way(c20, a20 * b02 + a21 * b12, a22 * b22);
    lemma_mul_is_distributive_add_other_way(c20, a20 * b02, a21 * b12);
    lemma_mul_is_distributive_add_other_way(c30, a20 * b03 + a21 * b13 + a22 * b23, a23 * b33);
    lemma_mul_is_distributive_add_other_way(c30, a20 * b03 + a21 * b13, a22 * b23);
    lemma_mul_is_distributive_add_other_way(c30, a20 * b03, a21 * b13);
    lemma_mul_is_distributive_add(a20, b00 * c00 + b01 * c10 + b02 * c20, b03 * c30);
    lemma_mul_is_distributive_add(a20, b00 * c00 + b01 * c10, b02 * c20);
    lemma_mul_is_distributive_add(a20, b00 * c00, b01 * c10);
    lemma_mul_is_associative(a20, b00, c00);
    lemma_mul_is_associative(a20, b01, c10);
    lemma_mul_is_associative(a20, b02, c20);
    lemma_mul_is_associative(a20, b03, c30);
    lemma_mul_is_distributive_add(a21, b10 * c00 + b11 * c10 + b12 * c20, b13 * c30);
    lemma_mul_is_distributive_add(a21, b10 * c00 + b11 * c10, b12 * c20);
    lemma_mul_is_distributive_add(a21, b10 * c00, b11 * c10);
    lemma_mul_is_associative(a21, b10, c00);
    lemma_mul_is_associative(a21, b11, c10);
    lemma_mul_is_associative(a21, b12, c20);
    lemma_mul_is_associative(a21, b13, c30);
    lemma_mul_is_distributive_add(a22, b20 * c00 + b21 * c10 + b22 * c20, b23 * c30);
    lemma_mul_is_distributive_add(a22, b20 * c00 + b21 * c10, b22 * c20);
    lemma_mul_is_distributive_add(a22, b20 * c00, b21 * c10);
    lemma_mul_is_associative(a22, b20, c00);
    lemma_mul_is_associative(a22, b21, c10);
    lemma_mul_is_associative(a22, b22, c20);
    lemma_mul_is_associative(a22, b23, c30);
    lemma_mul_is_distributive_add(a23, b30 * c00 + b31 * c10 + b32 * c20, b33 * c30);
    lemma_mul_is_distributive_add(a23, b30 * c00 + b31 * c10, b32 * c20);
    lemma_mul_is_distributive_add(a23, b30 * c00, b31 * c10);
    lemma_mul_is_associative(a23, b30, c00);
    lemma_mul_is_associative(a23, b31, c10);
    lemma_mul_is_associative(a23, b32, c20);
    lemma_mul_is_associative(a23, b33, c30);
    lemma_mul_is_distributive_add_other_way(c01, a20 * b00 + a21 * b10 + a22 * b20, a23 * b30);
    lemma_mul_is_distributive_add_other_way(c01, a20 * b00 + a21 * b10, a22 * b20);
    lemma_mul_is_distributive_add_other_way(c01, a20 * b00, a21 * b10);
    lemma_mul_is_distributive_add_other_way(c11, a20 * b01 + a21 * b11 + a22 * b21, a23 * b31);
    lemma_mul_is_distributive_add_other_way(c11, a20 * b01 + a21 * b11, a22 * b21);
    lemma_mul_is_distributive_add_other_way(c11, a20 * b01, a21 * b11);
    lemma_mul_is_distributive_add_other_way(c21, a20 * b02 + a21 * b12 + a22 * b22, a23 * b32);
    lemma_mul_is_distributive_add_other_way(c21, a20 * b02 + a21 * b12, a22 * b22);
    lemma_mul_is_distributive_add_other_way(c21, a20 * b02, a21 * b12);
    lemma_mul_is_distributive_add_other_way(c31, a20 * b03 + a21 * b13 + a22 * b23, a23 * b33);
    lemma_mul_is_distributive_add_other_way(c31, a20 * b03 + a21 * b13, a22 * b23);
    lemma_mul_is_distributive_add_other_way(c31, a20 * b03, a21 * b13);
    lemma_mul_is_distributive_add(a20, b00 * c01 + b01 * c11 + b02 * c21, b03 * c31);
    lemma_mul_is_distributive_add(a20, b00 * c01 + b01 * c11, b02 * c21);
    lemma_mul_is_distributive_add(a20, b00 * c01, b01 * c11);
    lemma_mul_is_associative(a20, b00, c01);
    lemma_mul_is_associative(a20, b01, c11);
    lemma_mul_is_associative(a20, b02, c21);
    lemma_mul_is_associative(a20, b03, c31);
    lemma_mul_is_distributive_add(a21, b10 * c01 + b11 * c11 + b12 * c21, b13 * c31);
    lemma_mul_is_distributive_add(a21, b10 * c01 + b11 * c11, b12 * c21);
    lemma_mul_is_distributive_add(a21, b10 * c01, b11 * c11);
    lemma_mul_is_associative(a21, b10, c01);
    lemma_mul_is_associative(a21, b11, c11);
    lemma_mul_is_associative(a21, b12, c21);
    lemma_mul_is_associative(a21, b13, c31);
    lemma_mul_is_distributive_add(a22, b20 * c01 + b21 * c11 + b22 * c21, b23 * c31);
    lemma_mul_is_distributive_add(a22, b20 * c01 + b21 * c11, b22 * c21);
    lemma_mul_is_distributive_add(a22, b20 * c01, b21 * c11);
    lemma_mul_is_associative(a22, b20, c01);
    lemma_mul_is_associative(a22, b21, c11);
    lemma_mul_is_associative(a22, b22, c21);
    lemma_mul_is_associative(a22, b23, c31);
    lemma_mul_is_distributive_add(a23, b30 * c01 + b31 * c11 + b32 * c21, b33 * c31);
    lemma_mul_is_distributive_add(a23, b30 * c01 + b31 * c11, b32 * c21);
    lemma_mul_is_distributive_add(a23, b30 * c01, b31 * c11);
    lemma_mul_is_associative(a23, b30, c01);
    lemma_mul_is_associative(a23, b31, c11);
    lemma_mul_is_associative(a23, b32, c21);
    lemma_mul_is_associative(a23, b33, c31);
    lemma_mul_is_distributive_add_other_way(c02, a20 * b00 + a21 * b10 + a22 * b20, a23 * b30);
    lemma_mul_is_distributive_add_other_way(c02, a20 * b00 + a21 * b10, a22 * b20);
    lemma_mul_is_distributive_add_other_way(c02, a20 * b00, a21 * b10);
    lemma_mul_is_distributive_add_other_way(c12, a20 * b01 + a21 * b11 + a22 * b21, a23 * b31);
    lemma_mul_is_distributive_add_other_way(c12, a20 * b01 + a21 * b11, a22 * b21);
    lemma_mul_is_distributive_add_other_way(c12, a20 * b01, a21 * b11);
    lemma_mul_is_distributive_add_other_way(c22, a20 * b02 + a21 * b12 + a22 * b22, a23 * b32);
    lemma_mul_is_distributive_add_other_way(c22, a20 * b02 + a21 * b12, a22 * b22);
    lemma_mul_is_distributive_add_other_way(c22, a20 * b02, a21 * b12);
    lemma_mul_is_distributive_add_other_way(c32, a20 * b03 + a21 * b13 + a22 * b23, a23 * b33);
    lemma_mul_is_distributive_add_other_way(c32, a20 * b03 + a21 * b13, a22 * b23);
    lemma_mul_is_distributive_add_other_way(c32, a20 * b03, a21 * b13);
    lemma_mul_is_distributive_add(a20, b00 * c02 + b01 * c12 + b02 * c22, b03 * c32);
    lemma_mul_is_distributive_add(a20, b00 * c02 + b01 * c12, b02 * c22);
    lemma_mul_is_distributive_add(a20, b00 * c02, b01 * c12);
    lemma_mul_is_associative(a20, b00, c02);
    lemma_mul_is_associative(a20, b01, c12);
    lemma_mul_is_associative(a20, b02, c22);
    lemma_mul_is_associative(a20, b03, c32);
    lemma_mul_is_distributive_add(a21, b10 * c02 + b11 * c12 + b12 * c22, b13 * c32);
    lemma_mul_is_distributive_add(a21, b10 * c02 + b11 * c12, b12 * c22);
    lemma_mul_is_distributive_add(a21, b10 * c02, b11 * c12);
    lemma_mul_is_associative(a21, b10, c02);
    lemma_mul_is_associative(a21, b11, c12);
    lemma_mul_is_associative(a21, b12, c22);
    lemma_mul_is_associative(a21, b13, c32);
    lemma_mul_is_distributive_add(a22, b20 * c02 + b21 * c12 + b22 * c22, b23 * c32);
    lemma_mul_is_distributive_add(a22, b20 * c02 + b21 * c12, b22 * c22);
    lemma_mul_is_distributive_add(a22, b20 * c02, b21 * c12);
    lemma_mul_is_associative(a22, b20, c02);
    lemma_mul_is_associative(a22, b21, c12);
    lemma_mul_is_associative(a22, b22, c22);
    lemma_mul_is_associative(a22, b23, c32);
    lemma_mul_is_distributive_add(a23, b30 * c02 + b31 * c12 + b32 * c22, b33 * c32);
    lemma_mul_is_distributive_add(a23, b30 * c02 + b31 * c12, b32 * c22);
    lemma_mul_is_distributive_add(a23, b30 * c02, b31 * c12);
    lemma_mul_is_associative(a23, b30, c02);
    lemma_mul_is_associative(a23, b31, c12);
    lemma_mul_is_associative(a23, b32, c22);
    lemma_mul_is_associative(a23, b33, c32);
    lemma_mul_is_distributive_add_other_way(c03, a20 * b00 + a21 * b10 + a22 * b20, a23 * b30);
    lemma_mul_is_distributive_add_other_way(c03, a20 * b00 + a21 * b10, a22 * b20);
    lemma_mul_is_distributive_add_other_way(c03, a20 * b00, a21 * b10);
    lemma_mul_is_distributive_add_other_way(c13, a20 * b01 + a21 * b11 + a22 * b21, a23 * b31);
    lemma_mul_is_distributive_add_other_way(c13, a20 * b01 + a21 * b11, a22 * b21);
    lemma_mul_is_distributive_add_other_way(c13, a20 * b01, a21 * b11);
    lemma_mul_is_distributive_add_other_way(c23, a20 * b02 + a21 * b12 + a22 * b22, a23 * b32);
    lemma_mul_is_distributive_add_other_way(c23, a20 * b02 + a21 * b12, a22 * b22);
    lemma_mul_is_distributive_add_other_way(c23, a20 * b02, a21 * b12);
    lemma_mul_is_distributive_add_other_way(c33, a20 * b03 + a21 * b13 + a22 * b23, a23 * b33);
    lemma_mul_is_distributive_add_other_way(c33, a20 * b03 + a21 * b13, a22 * b23);
    lemma_mul_is_distributive_add_other_way(c33, a20 * b03, a21 * b13);
    lemma_mul_is_distributive_add(a20, b00 * c03 + b01 * c13 + b02 * c23, b03 * c33);
    lemma_mul_is_distributive_add(a20, b00 * c03 + b01 * c13, b02 * c23);
    lemma_mul_is_distributive_add(a20, b00 * c03, b01 * c13);
    lemma_mul_is_associative(a20, b00, c03);
    lemma_mul_is_associative(a20, b01, c13);
    lemma_mul_is_associative(a20, b02, c23);
    lemma_mul_is_associative(a20, b03, c33);
    lemma_mul_is_distributive_add(a21, b10 * c03 + b11 * c13 + b12 * c23, b13 * c33);
    lemma_mul_is_distributive_add(a21, b10 * c03 + b11 * c13, b12 * c23);
    lemma_mul_is_distributive_add(a21, b10 * c03, b11 * c13);
    lemma_mul_is_associative(a21, b10, c03);
    lemma_mul_is_associative(a21, b11, c13);
    lemma_mul_is_associative(a21, b12, c23);
    lemma_mul_is_associative(a21, b13, c33);
    lemma_mul_is_distributive_add(a22, b20 * c03 + b21 * c13 + b22 * c23, b23 * c33);
    lemma_mul_is_distributive_add(a22, b20 * c03 + b21 * c13, b22 * c23);
    lemma_mul_is_distributive_add(a22, b20 * c03, b21 * c13);
    lemma_mul_is_associative(a22, b20, c03);
    lemma_mul_is_associative(a22, b21, c13);
    lemma_mul_is_associative(a22, b22, c23);
    lemma_mul_is_associative(a22, b23, c33);
    lemma_mul_is_distributive_add(a23, b30 * c03 + b31 * c13 + b32 * c23, b33 * c33);
    lemma_mul_is_distributive_add(a23, b30 * c03 + b31 * c13, b32 * c23);
    lemma_mul_is_distributive_add(a23, b30 * c03, b31 * c13);
    lemma_mul_is_associative(a23, b30, c03);
    lemma_mul_is_associative(a23, b31, c13);
    lemma_mul_is_associative(a23, b32, c23);
    lemma_mul_is_associative(a23, b33, c33);
    lemma_mul_is_distributive_add_other_way(c00, a30 * b00 + a31 * b10 + a32 * b20, a33 * b30);
    lemma_mul_is_distributive_add_other_way(c00, a30 * b00 + a31 * b10, a32 * b20);
    lemma_mul_is_distributive_add_other_way(c00, a30 * b00, a31 * b10);
    lemma_mul_is_distributive_add_other_way(c10, a30 * b01 + a31 * b11 + a32 * b21, a33 * b31);
    lemma_mul_is_distributive_add_other_way(c10, a30 * b01 + a31 * b11, a32 * b21);
    lemma_mul_is_distributive_add_other_way(c10, a30 * b01, a31 * b11);
    lemma_mul_is_distributive_add_other_way(c20, a30 * b02 + a31 * b12 + a32 * b22, a33 * b32);
    lemma_mul_is_distributive_add_other_way(c20, a30 * b02 + a31 * b12, a32 * b22);
    lemma_mul_is_distributive_add_other_way(c20, a30 * b02, a31 * b12);
    lemma_mul_is_distributive_add_other_way(c30, a30 * b03 + a31 * b13 + a32 * b23, a33 * b33);
    lemma_mul_is_distributive_add_other_way(c30, a30 * b03 + a31 * b13, a32 * b23);
    lemma_mul_is_distributive_add_other_way(c30, a30 * b03, a31 * b13);
    lemma_mul_is_distributive_add(a30, b00 * c00 + b01 * c10 + b02 * c20, b03 * c30);
    lemma_mul_is_distributive_add(a30, b00 * c00 + b01 * c10, b02 * c20);
    lemma_mul_is_distributive_add(a30, b00 * c00, b01 * c10);
    lemma_mul_is_associative(a30, b00, c00);
    lemma_mul_is_associative(a30, b01, c10);
    lemma_mul_is_associative(a30, b02, c20);
    lemma_mul_is_associative(a30, b03, c30);
    lemma_mul_is_distributive_add(a31, b10 * c00 + b11 * c10 + b12 * c20, b13 * c30);
    lemma_mul_is_distributive_add(a31, b10 * c00 + b11 * c10, b12 * c20);
    lemma_mul_is_distributive_add(a31, b10 * c00, b11 * c10);
    lemma_mul_is_associative(a31, b10, c00);
    lemma_mul_is_associative(a31, b11, c10);
    lemma_mul_is_associative(a31, b12, c20);
    lemma_mul_is_associative(a31, b13, c30);
    lemma_mul_is_distributive_add(a32, b20 * c00 + b21 * c10 + b22 * c20, b23 * c30);
    lemma_mul_is_distributive_add(a32, b20 * c00 + b21 * c10, b22 * c20);
    lemma_mul_is_distributive_add(a32, b20 * c00, b21 * c10);
    lemma_mul_is_associative(a32, b20, c00);
    lemma_mul_is_associative(a32, b21, c10);
    lemma_mul_is_associative(a32, b22, c20);
    lemma_mul_is_associative(a32, b23, c30);
    lemma_mul_is_distributive_add(a33, b30 * c00 + b31 * c10 + b32 * c20, b33 * c30);
    lemma_mul_is_distributive_add(a33, b30 * c00 + b31 * c10, b32 * c20);
    lemma_mul_is_distributive_add(a33, b30 * c00, b31 * c10);
    lemma_mul_is_associative(a33, b30, c00);
    lemma_mul_is_associative(a33, b31, c10);
    lemma_mul_is_associative(a33, b32, c20);
    lemma_mul_is_associative(a33, b33, c30);
    lemma_mul_is_distributive_add_other_way(c01, a30 * b00 + a31 * b10 + a32 * b20, a33 * b30);
    lemma_mul_is_distributive_add_other_way(c01, a30 * b00 + a31 * b10, a32 * b20);
    lemma_mul_is_distributive_add_other_way(c01, a30 * b00, a31 * b10);
    lemma_mul_is_distributive_add_other_way(c11, a30 * b01 + a31 * b11 + a32 * b21, a33 * b31);
    lemma_mul_is_distributive_add_other_way(c11, a30 * b01 + a31 * b11, a32 * b21);
    lemma_mul_is_distributive_add_other_way(c11, a30 * b01, a31 * b11);
    lemma_mul_is_distributive_add_other_way(c21, a30 * b02 + a31 * b12 + a32 * b22, a33 * b32);
    lemma_mul_is_distributive_add_other_way(c21, a30 * b02 + a31 * b12, a32 * b22);
    lemma_mul_is_distributive_add_other_way(c21, a30 * b02, a31 * b12);
    lemma_mul_is_distributive_add_other_way(c31, a30 * b03 + a31 * b13 + a32 * b23, a33 * b33);
    lemma_mul_is_distributive_add_other_way(c31, a30 * b03 + a31 * b13, a32 * b23);
    lemma_mul_is_distributive_add_other_way(c31, a30 * b03, a31 * b13);
    lemma_mul_is_distributive_add(a30, b00 * c01 + b01 * c11 + b02 * c21, b03 * c31);
    lemma_mul_is_distributive_add(a30, b00 * c01 + b01 * c11, b02 * c21);
    lemma_mul_is_distributive_add(a30, b00 * c01, b01 * c11);
    lemma_mul_is_associative(a30, b00, c01);
    lemma_mul_is_associative(a30, b01, c11);
    lemma_mul_is_associative(a30, b02, c21);
    lemma_mul_is_associative(a30, b03, c31);
    lemma_mul_is_distributive_add(a31, b10 * c01 + b11 * c11 + b12 * c21, b13 * c31);
    lemma_mul_is_distributive_add(a31, b10 * c01 + b11 * c11, b12 * c21);
    lemma_mul_is_distributive_add(a31, b10 * c01, b11 * c11);
    lemma_mul_is_associative(a31, b10, c01);
    lemma_mul_is_associative(a31, b11, c11);
    lemma_mul_is_associative(a31, b12, c21);
    lemma_mul_is_associative(a31, b13, c31);
    lemma_mul_is_distributive_add(a32, b20 * c01 + b21 * c11 + b22 * c21, b23 * c31);
    lemma_mul_is_distributive_add(a32, b20 * c01 + b21 * c11, b22 * c21);
    lemma_mul_is_distributive_add(a32, b20 * c01, b21 * c11);
    lemma_mul_is_associative(a32, b20, c01);
    lemma_mul_is_associative(a32, b21, c11);
    lemma_mul_is_associative(a32, b22, c21);
    lemma_mul_is_associative(a32, b23, c31);
    lemma_mul_is_distributive_add(a33, b30 * c01 + b31 * c11 + b32 * c21, b33 * c31);
    lemma_mul_is_distributive_add(a33, b30 * c01 + b31 * c11, b32 * c21);
    lemma_mul_is_distributive_add(a33, b30 * c01, b31 * c11);
    lemma_mul_is_associative(a33, b30, c01);
    lemma_mul_is_associative(a33, b31, c11);
    lemma_mul_is_associative(a33, b32, c21);
    lemma_mul_is_associative(a33, b33, c31);
    lemma_mul_is_distributive_add_other_way(c02, a30 * b00 + a31 * b10 + a32 * b20, a33 * b30);
    lemma_mul_is_distributive_add_other_way(c02, a30 * b00 + a31 * b10, a32 * b20);
    lemma_mul_is_distributive_add_other_way(c02, a30 * b00, a31 * b10);
    lemma_mul_is_distributive_add_other_way(c12, a30 * b01 + a31 * b11 + a32 * b21, a33 * b31);
    lemma_mul_is_distributive_add_other_way(c12, a30 * b01 + a31 * b11, a32 * b21);
    lemma_mul_is_distributive_add_other_way(c12, a30 * b01, a31 * b11);
    lemma_mul_is_distributive_add_other_way(c22, a30 * b02 + a31 * b12 + a32 * b22, a33 * b32);
    lemma_mul_is_distributive_add_other_way(c22, a30 * b02 + a31 * b12, a32 * b22);
    lemma_mul_is_distributive_add_other_way(c22, a30 * b02, a31 * b12);
    lemma_mul_is_distributive_add_other_way(c32, a30 * b03 + a31 * b13 + a32 * b23, a33 * b33);
    lemma_mul_is_distributive_add_other_way(c32, a30 * b03 + a31 * b13, a32 * b23);
    lemma_mul_is_distributive_add_other_way(c32, a30 * b03, a31 * b13);
    lemma_mul_is_distributive_add(a30, b00 * c02 + b01 * c12 + b02 * c22, b03 * c32);
    lemma_mul_is_distributive_add(a30, b00 * c02 + b01 * c12, b02 * c22);
    lemma_mul_is_distributive_add(a30, b00 * c02, b01 * c12);
    lemma_mul_is_associative(a30, b00, c02);
    lemma_mul_is_associative(a30, b01, c12);
    lemma_mul_is_associative(a30, b02, c22);
    lemma_mul_is_associative(a30, b03, c32);
    lemma_mul_is_distributive_add(a31, b10 * c02 + b11 * c12 + b12 * c22, b13 * c32);
    lemma_mul_is_distributive_add(a31, b10 * c02 + b11 * c12, b12 * c22);
    lemma_mul_is_distributive_add(a31, b10 * c02, b11 * c12);
    lemma_mul_is_associative(a31, b10, c02);
    lemma_mul_is_associative(a31, b11, c12);
    lemma_mul_is_associative(a31, b12, c22);
    lemma_mul_is_associative(a31, b13, c32);
    lemma_mul_is_distributive_add(a32, b20 * c02 + b21 * c12 + b22 * c22, b23 * c32);
    lemma_mul_is_distributive_add(a32, b20 * c02 + b21 * c12, b22 * c22);
    lemma_mul_is_distributive_add(a32, b20 * c02, b21 * c12);
    lemma_mul_is_associative(a32, b20, c02);
    lemma_mul_is_associative(a32, b21, c12);
    lemma_mul_is_associative(a32, b22, c22);
    lemma_mul_is_associative(a32, b23, c32);
    lemma_mul_is_distributive_add(a33, b30 * c02 + b31 * c12 + b32 * c22, b33 * c32);
    lemma_mul_is_distributive_add(a33, b30 * c02 + b31 * c12, b32 * c22);
    lemma_mul_is_distributive_add(a33, b30 * c02, b31 * c12);
    lemma_mul_is_associative(a33, b30, c02);
    lemma_mul_is_associative(a33, b31, c12);
    lemma_mul_is_associative(a33, b32, c22);
    lemma_mul_is_associative(a33, b33, c32);
    lemma_mul_is_distributive_add_other_way(c03, a30 * b00 + a31 * b10 + a32 * b20, a33 * b30);
    lemma_mul_is_distributive_add_other_way(c03, a30 * b00 + a31 * b10, a32 * b20);
    lemma_mul_is_distributive_add_other_way(c03, a30 * b00, a31 * b10);
    lemma_mul_is_distributive_add_other_way(c13, a30 * b01 + a31 * b11 + a32 * b21, a33 * b31);
    lemma_mul_is_distributive_add_other_way(c13, a30 * b01 + a31 * b11, a32 * b21);
    lemma_mul_is_distributive_add_other_way(c13, a30 * b01, a31 * b11);
    lemma_mul_is_distributive_add_other_way(c23, a30 * b02 + a31 * b12 + a32 * b22, a33 * b32);
    lemma_mul_is_distributive_add_other_way(c23, a30 * b02 + a31 * b12, a32 * b22);
    lemma_mul_is_distributive_add_other_way(c23, a30 * b02, a31 * b12);
    lemma_mul_is_distributive_add_other_way(c33, a30 * b03 + a31 * b13 + a32 * b23, a33 * b33);
    lemma_mul_is_distributive_add_other_way(c33, a30 * b03 + a31 * b13, a32 * b23);
    lemma_mul_is_distributive_add_other_way(c33, a30 * b03, a31 * b13);
    lemma_mul_is_distributive_add(a30, b00 * c03 + b01 * c13 + b02 * c23, b03 * c33);
    lemma_mul_is_distributive_add(a30, b00 * c03 + b01 * c13, b02 * c23);
    lemma_mul_is_distributive_add(a30, b00 * c03, b01 * c13);
    lemma_mul_is_associative(a30, b00, c03);
    lemma_mul_is_associative(a30, b01, c13);
    lemma_mul_is_associative(a30, b02, c23);
    lemma_mul_is_associative(a30, b03, c33);
    lemma_mul_is_distributive_add(a31, b10 * c03 + b11 * c13 + b12 * c23, b13 * c33);
    lemma_mul_is_distributive_add(a31, b10 * c03 + b11 * c13, b12 * c23);
    lemma_mul_is_distributive_add(a31, b10 * c03, b11 * c13);
    lemma_mul_is_associative(a31, b10, c03);
    lemma_mul_is_associative(a31, b11, c13);
    lemma_mul_is_associative(a31, b12, c23);
    lemma_mul_is_associative(a31, b13, c33);
    lemma_mul_is_distributive_add(a32, b20 * c03 + b21 * c13 + b22 * c23, b23 * c33);
    lemma_mul_is_distributive_add(a32, b20 * c03 + b21 * c13, b22 * c23);
    lemma_mul_is_distributive_add(a32, b20 * c03, b21 * c13);
    lemma_mul_is_associative(a32, b20, c03);
    lemma_mul_is_associative(a32, b21, c13);
    lemma_mul_is_associative(a32, b22, c23);
    lemma_mul_is_associative(a32, b23, c33);
    lemma_mul_is_distributive_add(a33, b30 * c03 + b31 * c13 + b32 * c23, b33 * c33);
    lemma_mul_is_distributive_add(a33, b30 * c03 + b31 * c13, b32 * c23);
    lemma_mul_is_distributive_add(a33, b30 * c03, b31 * c13);
    lemma_mul_is_associative(a33, b30, c03);
    lemma_mul_is_associative(a33, b31, c13);
    lemma_mul_is_associative(a33, b32, c23);
    lemma_mul_is_associative(a33, b33, c33);
    assert(product(product(a, b), c) =~~= product(a, product(b, c)));
}

/// Multiplying by `d` times the identity multiplies every entry by `d`.
pub proof fn lemma_product_with_scaled_identity(a: Seq<Seq<int>>, d: int)
    requires
        is_square(a, 4),
    ensures
        product(a, scaled(d, identity(4))) == scaled(d, a),
{
    let a00 = a[0][0];
    let a01 = a[0][1];
    let a02 = a[0][2];
    let a03 = a[0][3];
    let a10 = a[1][0];
    let a11 = a[1][1];
    let a12 = a[1][2];
    let a13 = a[1][3];
    let a20 = a[2][0];
    let a21 = a[2][1];
    let a22 = a[2][2];
    let a23 = a[2][3];
    let a30 = a[3][0];
    let a31 = a[3][1];
    let a32 = a[3][2];
    let a33 = a[3][3];
    assert(a =~~= matrix4(a00, a01, a02, a03, a10, a11, a12, a13, a20, a21, a22, a23, a30, a31, a32,
        a33));
    assert(d * 1 == d && d * 0 == 0);
    assert(scaled(d, identity(4)) =~~= matrix4(d, 0, 0, 0, 0, d, 0, 0, 0, 0, d, 0, 0, 0, 0, d));
    lemma_product4(a00, a01, a02, a03, a10, a11, a12, a13, a20, a21, a22, a23, a30, a31, a32, a33,
        d, 0, 0, 0, 0, d, 0, 0, 0, 0, d, 0, 0, 0, 0, d);
    lemma_mul_is_commutative(a00, d);
    lemma_mul_is_commutative(a01, d);
    lemma_mul_is_commutative(a02, d);
    lemma_mul_is_commutative(a03, d);
    lemma_mul_is_commutative(a10, d);
    lemma_mul_is_commutative(a11, d);
    lemma_mul_is_commutative(a12, d);
    lemma_mul_is_commutative(a13, d);
    lemma_mul_is_commutative(a20, d);
    lemma_mul_is_commutative(a21, d);
    lemma_mul_is_commutative(a22, d);
    lemma_mul_is_commutative(a23, d);
    lemma_mul_is_commutative(a30, d);
    lemma_mul_is_commutative(a31, d);
    lemma_mul_is_commutative(a32, d);
    lemma_mul_is_commutative(a33, d);
    assert(product(a, scaled(d, identity(4))) =~~= scaled(d, a));
}

/// Multiplying by a 4×4 matrix `m` and then by its exact inverse gives back the first
/// factor: `(a * m) * adjugate(m) == determinant(m) * a`, which for an invertible `m` is
/// `(a * m) * inverse(m) == a` with `inverse(m) == adjugate(m) / determinant(m)`.
pub proof fn lemma_inverse_round_trip(a: Seq<Seq<int>>, m: Seq<Seq<int>>)
    requires
        is_square(a, 4),
        is_square(m, 4),
    ensures
        product(product(a, m), adjugate(m)) == scaled(determinant(m), a),
{
    assert forall|r: int| 0 <= r < 4 implies #[trigger] adjugate(m)[r].len() == 4 by {}
    lemma_product4_associative(a, m, adjugate(m));
    lemma_product_with_adjugate(m);
    lemma_product_with_scaled_identity(a, determinant(m));
}

/// Applying `a * b` to homogeneous `(p, w)` applies `b` first and then `a`, whenever `b`
/// keeps the fourth coordinate (its bottom row is `[0, 0, 0, 1]`, as for every affine
/// transform). With `w == 1` this is a point, with `w == 0` a vector.
pub proof fn lemma_product_applies_right_factor_first(
    a: Seq<Seq<int>>,
    b: Seq<Seq<int>>,
    p: (int, int, int),
    w: int,
)
    requires
        is_square(a, 4),
        is_square(b, 4),
        b[3] == seq![0int, 0, 0, 1],
    ensures
        image(product(a, b), p, w) == image(a, image(b, p, w), w),
{
    let a00 = a[0][0];
    let a01 = a[0][1];
    let a02 = a[0][2];
    let a03 = a[0][3];
    let a10 = a[1][0];
    let a11 = a[1][1];
    let a12 = a[1][2];
    let a13 = a[1][3];
    let a20 = a[2][0];
    let a21 = a[2][1];
    let a22 = a[2][2];
    let a23 = a[2][3];
    let a30 = a[3][0];
    let a31 = a[3][1];
    let a32 = a[3][2];
    let a33 = a[3][3];
    let b00 = b[0][0];
    let b01 = b[0][1];
    let b02 = b[0][2];
    let b03 = b[0][3];
    let b10 = b[1][0];
    let b11 = b[1][1];
    let b12 = b[1][2];
    let b13 = b[1][3];
    let b20 = b[2][0];
    let b21 = b[2][1];
    let b22 = b[2][2];
    let b23 = b[2][3];
    assert(a =~~= matrix4(a00, a01, a02, a03, a10, a11, a12, a13, a20, a21, a22, a23, a30, a31, a32,
        a33));
    assert(b =~~= matrix4(b00, b01, b02, b03, b10, b11, b12, b13, b20, b21, b22, b23, 0, 0, 0, 1));
    lemma_product4(a00, a01, a02, a03, a10, a11, a12, a13, a20, a21, a22, a23, a30, a31, a32, a33,
        b00, b01, b02, b03, b10, b11, b12, b13, b20, b21, b22, b23, 0, 0, 0, 1);
    lemma_image4(a00 * b00 + a01 * b10 + a02 * b20 + a03 * 0, a00 * b01 + a01 * b11 + a02 * b21
        + a03 * 0, a00 * b02 + a01 * b12 + a02 * b22 + a03 * 0, a00 * b03 + a01 * b13 + a02 * b23
        + a03 * 1, a10 * b00 + a11 * b10 + a12 * b20 + a13 * 0, a10 * b01 + a11 * b11 + a12 * b21
        + a13 * 0, a10 * b02 + a11 * b12 + a12 * b22 + a13 * 0, a10 * b03 + a11 * b13 + a12 * b23
        + a13 * 1, a20 * b00 + a21 * b10 + a22 * b20 + a23 * 0, a20 * b01 + a21 * b11 + a22 * b21
        + a23 * 0, a20 * b02 + a21 * b12 + a22 * b22 + a23 * 0, a20 * b03 + a21 * b13 + a22 * b23
        + a23 * 1, a30 * b00 + a31 * b10 + a32 * b20 + a33 * 0, a30 * b01 + a31 * b11 + a32 * b21
        + a33 * 0, a30 * b02 + a31 * b12 + a32 * b22 + a33 * 0, a30 * b03 + a31 * b13 + a32 * b23
        + a33 * 1, p, w);
    lemma_image4(b00, b01, b02, b03, b10, b11, b12, b13, b20, b21, b22, b23, 0, 0, 0, 1, p, w);
    lemma_image4(a00, a01, a02, a03, a10, a11, a12, a13, a20, a21, a22, a23, a30, a31, a32, a33,
        (b00 * p.0 + b01 * p.1 + b02 * p.2 + b03 * w, b10 * p.0 + b11 * p.1 + b12 * p.2 + b13 * w,
        b20 * p.0 + b21 * p.1 + b22 * p.2 + b23 * w), w);
    lemma_mul_is_distributive_add_other_way(p.0, a00 * b00 + a01 * b10 + a02 * b20, a03 * 0);
    lemma_mul_is_distributive_add_other_way(p.0, a00 * b00 + a01 * b10, a02 * b20);
    lemma_mul_is_distributive_add_other_way(p.0, a00 * b00, a01 * b10);
    lemma_mul_is_distributive_add_other_way(p.1, a00 * b01 + a01 * b11 + a02 * b21, a03 * 0);
    lemma_mul_is_distributive_add_other_way(p.1, a00 * b01 + a01 * b11, a02 * b21);
    lemma_mul_is_distributive_add_other_way(p.1, a00 * b01, a01 * b11);
    lemma_mul_is_distributive_add_other_way(p.2, a00 * b02 + a01 * b12 + a02 * b22, a03 * 0);
    lemma_mul_is_distributive_add_other_way(p.2, a00 * b02 + a01 * b12, a02 * b22);
    lemma_mul_is_distributive_add_other_way(p.2, a00 * b02, a01 * b12);
    lemma_mul_is_distributive_add_other_way(w, a00 * b03 + a01 * b13 + a02 * b23, a03 * 1);
    lemma_mul_is_distributive_add_other_way(w, a00 * b03 + a01 * b13, a02 * b23);
    lemma_mul_is_distributive_add_other_way(w, a00 * b03, a01 * b13);
    lemma_mul_is_distributive_add(a00, b00 * p.0 + b01 * p.1 + b02 * p.2, b03 * w);
    lemma_mul_is_distributive_add(a00, b00 * p.0 + b01 * p.1, b02 * p.2);
    lemma_mul_is_distributive_add(a00, b00 * p.0, b01 * p.1);
    lemma_mul_is_associative(a00, b00, p.0);
    lemma_mul_is_associative(a00, b01, p.1);
    lemma_mul_is_associative(a00, b02, p.2);
    lemma_mul_is_associative(a00, b03, w);
    lemma_mul_is_distributive_add(a01, b10 * p.0 + b11 * p.1 + b12 * p.2, b13 * w);
    lemma_mul_is_distributive_add(a01, b10 * p.0 + b11 * p.1, b12 * p.2);
    lemma_mul_is_distributive_add(a01, b10 * p.0, b11 * p.1);
    lemma_mul_is_associative(a01, b10, p.0);
    lemma_mul_is_associative(a01, b11, p.1);
    lemma_mul_is_associative(a01, b12, p.2);
    lemma_mul_is_associative(a01, b13, w);
    lemma_mul_is_distributive_add(a02, b20 * p.0 + b21 * p.1 + b22 * p.2, b23 * w);
    lemma_mul_is_distributive_add(a02, b20 * p.0 + b21 * p.1, b22 * p.2);
    lemma_mul_is_distributive_add(a02, b20 * p.0, b21 * p.1);
    lemma_mul_is_associative(a02, b20, p.0);
    lemma_mul_is_associative(a02, b21, p.1);
    lemma_mul_is_associative(a02, b22, p.2);
    lemma_mul_is_associative(a02, b23, w);
    assert(a03 * 0 == 0 && a03 * 1 == a03);
    assert(0 * p.0 == 0 && 0 * p.1 == 0 && 0 * p.2 == 0 && 1 * w == w);
    lemma_mul_is_distributive_add_other_way(p.0, a10 * b00 + a11 * b10 + a12 * b20, a13 * 0);
    lemma_mul_is_distributive_add_other_way(p.0, a10 * b00 + a11 * b10, a12 * b20);
    lemma_mul_is_distributive_add_other_way(p.0, a10 * b00, a11 * b10);
    lemma_mul_is_distributive_add_other_way(p.1, a10 * b01 + a11 * b11 + a12 * b21, a13 * 0);
    lemma_mul_is_distributive_add_other_way(p.1, a10 * b01 + a11 * b11, a12 * b21);
    lemma_mul_is_distributive_add_other_way(p.1, a10 * b01, a11 * b11);
    lemma_mul_is_distributive_add_other_way(p.2, a10 * b02 + a11 * b12 + a12 * b22, a13 * 0);
    lemma_mul_is_distributive_add_other_way(p.2, a10 * b02 + a11 * b12, a12 * b22);
    lemma_mul_is_distributive_add_other_way(p.2, a10 * b02, a11 * b12);
    lemma_mul_is_distributive_add_other_way(w, a10 * b03 + a11 * b13 + a12 * b23, a13 * 1);
    lemma_mul_is_distributive_add_other_way(w, a10 * b03 + a11 * b13, a12 * b23);
    lemma_mul_is_distributive_add_other_way(w, a10 * b03, a11 * b13);
    lemma_mul_is_distributive_add(a10, b00 * p.0 + b01 * p.1 + b02 * p.2, b03 * w);
    lemma_mul_is_distributive_add(a10, b00 * p.0 + b01 * p.1, b02 * p.2);
    lemma_mul_is_distributive_add(a10, b00 * p.0, b01 * p.1);
    lemma_mul_is_associative(a10, b00, p.0);
    lemma_mul_is_associative(a10, b01, p.1);
    lemma_mul_is_associative(a10, b02, p.2);
    lemma_mul_is_associative(a10, b03, w);
    lemma_mul_is_distributive_add(a11, b10 * p.0 + b11 * p.1 + b12 * p.2, b13 * w);
    lemma_mul_is_distributive_add(a11, b10 * p.0 + b11 * p.1, b12 * p.2);
    lemma_mul_is_distributive_add(a11, b10 * p.0, b11 * p.1);
    lemma_mul_is_associative(a11, b10, p.0);
    lemma_mul_is_associative(a11, b11, p.1);
    lemma_mul_is_associative(a11, b12, p.2);
    lemma_mul_is_associative(a11, b13, w);
    lemma_mul_is_distributive_add(a12, b20 * p.0 + b21 * p.1 + b22 * p.2, b23 * w);
    lemma_mul_is_distributive_add(a12, b20 * p.0 + b21 * p.1, b22 * p.2);
    lemma_mul_is_distributive_add(a12, b20 * p.0, b21 * p.1);
    lemma_mul_is_associative(a12, b20, p.0);
    lemma_mul_is_associative(a12, b21, p.1);
    lemma_mul_is_associative(a12, b22, p.2);
    lemma_mul_is_associative(a12, b23, w);
    assert(a13 * 0 == 0 && a13 * 1 == a13);
    assert(0 * p.0 == 0 && 0 * p.1 == 0 && 0 * p.2 == 0 && 1 * w == w);
    lemma_mul_is_distributive_add_other_way(p.0, a20 * b00 + a21 * b10 + a22 * b20, a23 * 0);
    lemma_mul_is_distributive_add_other_way(p.0, a20 * b00 + a21 * b10, a22 * b20);
    lemma_mul_is_distributive_add_other_way(p.0, a20 * b00, a21 * b10);
    lemma_mul_is_distributive_add_other_way(p.1, a20 * b01 + a21 * b11 + a22 * b21, a23 * 0);
    lemma_mul_is_distributive_add_other_way(p.1, a20 * b01 + a21 * b11, a22 * b21);
    lemma_mul_is_distributive_add_other_way(p.1, a20 * b01, a21 * b11);
    lemma_mul_is_distributive_add_other_way(p.2, a20 * b02 + a21 * b12 + a22 * b22, a23 * 0);
    lemma_mul_is_distributive_add_other_way(p.2, a20 * b02 + a21 * b12, a22 * b22);
    lemma_mul_is_distributive_add_other_way(p.2, a20 * b02, a21 * b12);
    lemma_mul_is_distributive_add_other_way(w, a20 * b03 + a21 * b13 + a22 * b23, a23 * 1);
    lemma_mul_is_distributive_add_other_way(w, a20 * b03 + a21 * b13, a22 * b23);
    lemma_mul_is_distributive_add_other_way(w, a20 * b03, a21 * b13);
    lemma_mul_is_distributive_add(a20, b00 * p.0 + b01 * p.1 + b02 * p.2, b03 * w);
    lemma_mul_is_distributive_add(a20, b00 * p.0 + b01 * p.1, b02 * p.2);
    lemma_mul_is_distributive_add(a20, b00 * p.0, b01 * p.1);
    lemma_mul_is_associative(a20, b00, p.0);
    lemma_mul_is_associative(a20, b01, p.1);
    lemma_mul_is_associative(a20, b02, p.2);
    lemma_mul_is_associative(a20, b03, w);
    lemma_mul_is_distributive_add(a21, b10 * p.0 + b11 * p.1 + b12 * p.2, b13 * w);
    lemma_mul_is_distributive_add(a21, b10 * p.0 + b11 * p.1, b12 * p.2);
    lemma_mul_is_distributive_add(a21, b10 * p.0, b11 * p.1);
    lemma_mul_is_associative(a21, b10, p.0);
    lemma_mul_is_associative(a21, b11, p.1);
    lemma_mul_is_associative(a21, b12, p.2);
    lemma_mul_is_associative(a21, b13, w);
    lemma_mul_is_distributive_add(a22, b20 * p.0 + b21 * p.1 + b22 * p.2, b23 * w);
    lemma_mul_is_distributive_add(a22, b20 * p.0 + b21 * p.1, b22 * p.2);
    lemma_mul_is_distributive_add(a22, b20 * p.0, b21 * p.1);
    lemma_mul_is_associative(a22, b20, p.0);
    lemma_mul_is_associative(a22, b21, p.1);
    lemma_mul_is_associative(a22, b22, p.2);
    lemma_mul_is_associative(a22, b23, w);
    assert(a23 * 0 == 0 && a23 * 1 == a23);
    assert(0 * p.0 == 0 && 0 * p.1 == 0 && 0 * p.2 == 0 && 1 * w == w);
}

} // verus!
