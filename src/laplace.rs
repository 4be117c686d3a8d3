//! Cofactor expansion of a 4×4 determinant along any row, and the vanishing of an
//! expansion that pairs one row with the cofactors of another: together, the product of a
//! matrix with its adjugate is its determinant times the identity.
use vstd::prelude::*;
use crate::algebra::{
    adjugate, cofactor, determinant, identity, is_square, lemma_cofactors4, lemma_product4, matrix4,
    product, scaled,
};
use crate::laws::lemma_determinant_is_cofactor_expansion;
use vstd::arithmetic::mul::{
    lemma_mul_is_associative, lemma_mul_is_commutative, lemma_mul_is_distributive_add,
    lemma_mul_is_distributive_sub, lemma_mul_unary_negation,
};

verus! {

/// The sum over all permutations `p` of the signed products `m0p0 * m1p1 * m2p2 * m3p3`.
pub open spec fn permutation_sum4(m00: int, m01: int, m02: int, m03: int, m10: int, m11: int,
    m12: int, m13: int, m20: int, m21: int, m22: int, m23: int, m30: int, m31: int, m32: int,
    m33: int) -> int {
    m00 * m11 * m22 * m33 - m00 * m11 * m23 * m32 - m00 * m12 * m21 * m33 + m00 * m12 * m23 * m31
        + m00 * m13 * m21 * m32 - m00 * m13 * m22 * m31 - m01 * m10 * m22 * m33
        + m01 * m10 * m23 * m32 + m01 * m12 * m20 * m33 - m01 * m12 * m23 * m30
        - m01 * m13 * m20 * m32 + m01 * m13 * m22 * m30 + m02 * m10 * m21 * m33
        - m02 * m10 * m23 * m31 - m02 * m11 * m20 * m33 + m02 * m11 * m23 * m30
        + m02 * m13 * m20 * m31 - m02 * m13 * m21 * m30 - m03 * m10 * m21 * m32
        + m03 * m10 * m22 * m31 + m03 * m11 * m20 * m32 - m03 * m11 * m22 * m30
        - m03 * m12 * m20 * m31 + m03 * m12 * m21 * m30
}

/// `x` times a 3×3 determinant, as signed products with `x` last.
proof fn lemma_times_determinant3(x: int, e00: int, e01: int, e02: int, e10: int, e11: int,
    e12: int, e20: int, e21: int, e22: int)
    ensures
        x * (e00 * (e11 * e22 - e21 * e12) - e01 * (e10 * e22 - e20 * e12) + e02 * (e10 * e21
            - e20 * e11)) == e00 * e11 * e22 * x - e00 * e12 * e21 * x - e01 * e10 * e22 * x
            + e01 * e12 * e20 * x + e02 * e10 * e21 * x - e02 * e11 * e20 * x,
{
    lemma_mul_is_distributive_add(x, e00 * (e11 * e22 - e21 * e12) - e01 * (e10 * e22 - e20 * e12),
        e02 * (e10 * e21 - e20 * e11));
    lemma_mul_is_distributive_sub(x, e00 * (e11 * e22 - e21 * e12), e01 * (e10 * e22 - e20 * e12));
    lemma_mul_is_distributive_sub(e00, e11 * e22, e21 * e12);
    lemma_mul_is_distributive_sub(x, e00 * (e11 * e22), e00 * (e21 * e12));
    lemma_mul_is_commutative(x, e00 * (e11 * e22));
    lemma_mul_is_associative(e00, e11, e22);
    lemma_mul_is_commutative(x, e00 * (e21 * e12));
    lemma_mul_is_associative(e00, e21, e12);
    lemma_swap12(e00, e21, e12, x);
    lemma_mul_is_distributive_sub(e01, e10 * e22, e20 * e12);
    lemma_mul_is_distributive_sub(x, e01 * (e10 * e22), e01 * (e20 * e12));
    lemma_mul_is_commutative(x, e01 * (e10 * e22));
    lemma_mul_is_associative(e01, e10, e22);
    lemma_mul_is_commutative(x, e01 * (e20 * e12));
    lemma_mul_is_associative(e01, e20, e12);
    lemma_swap12(e01, e20, e12, x);
    lemma_mul_is_distributive_sub(e02, e10 * e21, e20 * e11);
    lemma_mul_is_distributive_sub(x, e02 * (e10 * e21), e02 * (e20 * e11));
    lemma_mul_is_commutative(x, e02 * (e10 * e21));
    lemma_mul_is_associative(e02, e10, e21);
    lemma_mul_is_commutative(x, e02 * (e20 * e11));
    lemma_mul_is_associative(e02, e20, e11);
    lemma_swap12(e02, e20, e11, x);
}

proof fn lemma_swap01(f0: int, f1: int, f2: int, f3: int)
    ensures
        f0 * f1 * f2 * f3 == f1 * f0 * f2 * f3,
{
    lemma_mul_is_commutative(f0, f1);
}

proof fn lemma_swap12(f0: int, f1: int, f2: int, f3: int)
    ensures
        f0 * f1 * f2 * f3 == f0 * f2 * f1 * f3,
{
    lemma_mul_is_associative(f0, f1, f2);
    lemma_mul_is_commutative(f1, f2);
    lemma_mul_is_associative(f0, f2, f1);
}

proof fn lemma_swap23(f0: int, f1: int, f2: int, f3: int)
    ensures
        f0 * f1 * f2 * f3 == f0 * f1 * f3 * f2,
{
    lemma_mul_is_associative(f0 * f1, f2, f3);
    lemma_mul_is_commutative(f2, f3);
    lemma_mul_is_associative(f0 * f1, f3, f2);
}

/// The cofactor expansion along row 0.
pub proof fn lemma_row0_expansion4(m00: int, m01: int, m02: int, m03: int, m10: int, m11: int,
    m12: int, m13: int, m20: int, m21: int, m22: int, m23: int, m30: int, m31: int, m32: int,
    m33: int)
    ensures
        m00 * cofactor(matrix4(m00, m01, m02, m03, m10, m11, m12, m13, m20, m21, m22, m23, m30, m31,
            m32, m33), 0, 0) + m01 * cofactor(matrix4(m00, m01, m02, m03, m10, m11, m12, m13, m20,
            m21, m22, m23, m30, m31, m32, m33), 0, 1) + m02 * cofactor(matrix4(m00, m01, m02, m03,
            m10, m11, m12, m13, m20, m21, m22, m23, m30, m31, m32, m33), 0, 2)
            + m03 * cofactor(matrix4(m00, m01, m02, m03, m10, m11, m12, m13, m20, m21, m22, m23,
            m30, m31, m32, m33), 0, 3) == permutation_sum4(m00, m01, m02, m03, m10, m11, m12, m13,
            m20, m21, m22, m23, m30, m31, m32, m33),
{
    lemma_cofactors4(m00, m01, m02, m03, m10, m11, m12, m13, m20, m21, m22, m23, m30, m31, m32,
        m33);
    lemma_times_determinant3(m00, m11, m12, m13, m21, m22, m23, m31, m32, m33);
    lemma_swap23(m11, m22, m33, m00);
    lemma_swap12(m11, m22, m00, m33);
    lemma_swap01(m11, m00, m22, m33);
    lemma_swap23(m11, m23, m32, m00);
    lemma_swap12(m11, m23, m00, m32);
    lemma_swap01(m11, m00, m23, m32);
    lemma_swap23(m12, m21, m33, m00);
    lemma_swap12(m12, m21, m00, m33);
    lemma_swap01(m12, m00, m21, m33);
    lemma_swap23(m12, m23, m31, m00);
    lemma_swap12(m12, m23, m00, m31);
    lemma_swap01(m12, m00, m23, m31);
    lemma_swap23(m13, m21, m32, m00);
    lemma_swap12(m13, m21, m00, m32);
    lemma_swap01(m13, m00, m21, m32);
    lemma_swap23(m13, m22, m31, m00);
    lemma_swap12(m13, m22, m00, m31);
    lemma_swap01(m13, m00, m22, m31);
    lemma_times_determinant3(m01, m10, m12, m13, m20, m22, m23, m30, m32, m33);
    lemma_mul_unary_negation(m01, m10 * (m22 * m33 - m32 * m23) - m12 * (m20 * m33 - m30 * m23)
        + m13 * (m20 * m32 - m30 * m22));
    lemma_swap23(m10, m22, m33, m01);
    lemma_swap12(m10, m22, m01, m33);
    lemma_swap01(m10, m01, m22, m33);
    lemma_swap23(m10, m23, m32, m01);
    lemma_swap12(m10, m23, m01, m32);
    lemma_swap01(m10, m01, m23, m32);
    lemma_swap23(m12, m20, m33, m01);
    lemma_swap12(m12, m20, m01, m33);
    lemma_swap01(m12, m01, m20, m33);
    lemma_swap23(m12, m23, m30, m01);
    lemma_swap12(m12, m23, m01, m30);
    lemma_swap01(m12, m01, m23, m30);
    lemma_swap23(m13, m20, m32, m01);
    lemma_swap12(m13, m20, m01, m32);
    lemma_swap01(m13, m01, m20, m32);
    lemma_swap23(m13, m22, m30, m01);
    lemma_swap12(m13, m22, m01, m30);
    lemma_swap01(m13, m01, m22, m30);
    lemma_times_determinant3(m02, m10, m11, m13, m20, m21, m23, m30, m31, m33);
    lemma_swap23(m10, m21, m33, m02);
    lemma_swap12(m10, m21, m02, m33);
    lemma_swap01(m10, m02, m21, m33);
    lemma_swap23(m10, m23, m31, m02);
    lemma_swap12(m10, m23, m02, m31);
    lemma_swap01(m10, m02, m23, m31);
    lemma_swap23(m11, m20, m33, m02);
    lemma_swap12(m11, m20, m02, m33);
    lemma_swap01(m11, m02, m20, m33);
    lemma_swap23(m11, m23, m30, m02);
    lemma_swap12(m11, m23, m02, m30);
    lemma_swap01(m11, m02, m23, m30);
    lemma_swap23(m13, m20, m31, m02);
    lemma_swap12(m13, m20, m02, m31);
    lemma_swap01(m13, m02, m20, m31);
    lemma_swap23(m13, m21, m30, m02);
    lemma_swap12(m13, m21, m02, m30);
    lemma_swap01(m13, m02, m21, m30);
    lemma_times_determinant3(m03, m10, m11, m12, m20, m21, m22, m30, m31, m32);
    lemma_mul_unary_negation(m03, m10 * (m21 * m32 - m31 * m22) - m11 * (m20 * m32 - m30 * m22)
        + m12 * (m20 * m31 - m30 * m21));
    lemma_swap23(m10, m21, m32, m03);
    lemma_swap12(m10, m21, m03, m32);
    lemma_swap01(m10, m03, m21, m32);
    lemma_swap23(m10, m22, m31, m03);
    lemma_swap12(m10, m22, m03, m31);
    lemma_swap01(m10, m03, m22, m31);
    lemma_swap23(m11, m20, m32, m03);
    lemma_swap12(m11, m20, m03, m32);
    lemma_swap01(m11, m03, m20, m32);
    lemma_swap23(m11, m22, m30, m03);
    lemma_swap12(m11, m22, m03, m30);
    lemma_swap01(m11, m03, m22, m30);
    lemma_swap23(m12, m20, m31, m03);
    lemma_swap12(m12, m20, m03, m31);
    lemma_swap01(m12, m03, m20, m31);
    lemma_swap23(m12, m21, m30, m03);
    lemma_swap12(m12, m21, m03, m30);
    lemma_swap01(m12, m03, m21, m30);
}

/// The cofactor expansion along row 1.
pub proof fn lemma_row1_expansion4(m00: int, m01: int, m02: int, m03: int, m10: int, m11: int,
    m12: int, m13: int, m20: int, m21: int, m22: int, m23: int, m30: int, m31: int, m32: int,
    m33: int)
    ensures
        m10 * cofactor(matrix4(m00, m01, m02, m03, m10, m11, m12, m13, m20, m21, m22, m23, m30, m31,
            m32, m33), 1, 0) + m11 * cofactor(matrix4(m00, m01, m02, m03, m10, m11, m12, m13, m20,
            m21, m22, m23, m30, m31, m32, m33), 1, 1) + m12 * cofactor(matrix4(m00, m01, m02, m03,
            m10, m11, m12, m13, m20, m21, m22, m23, m30, m31, m32, m33), 1, 2)
            + m13 * cofactor(matrix4(m00, m01, m02, m03, m10, m11, m12, m13, m20, m21, m22, m23,
            m30, m31, m32, m33), 1, 3) == permutation_sum4(m00, m01, m02, m03, m10, m11, m12, m13,
            m20, m21, m22, m23, m30, m31, m32, m33),
{
    lemma_cofactors4(m00, m01, m02, m03, m10, m11, m12, m13, m20, m21, m22, m23, m30, m31, m32,
        m33);
    lemma_times_determinant3(m10, m01, m02, m03, m21, m22, m23, m31, m32, m33);
    lemma_mul_unary_negation(m10, m01 * (m22 * m33 - m32 * m23) - m02 * (m21 * m33 - m31 * m23)
        + m03 * (m21 * m32 - m31 * m22));
    lemma_swap23(m01, m22, m33, m10);
    lemma_swap12(m01, m22, m10, m33);
    lemma_swap23(m01, m23, m32, m10);
    lemma_swap12(m01, m23, m10, m32);
    lemma_swap23(m02, m21, m33, m10);
    lemma_swap12(m02, m21, m10, m33);
    lemma_swap23(m02, m23, m31, m10);
    lemma_swap12(m02, m23, m10, m31);
    lemma_swap23(m03, m21, m32, m10);
    lemma_swap12(m03, m21, m10, m32);
    lemma_swap23(m03, m22, m31, m10);
    lemma_swap12(m03, m22, m10, m31);
    lemma_times_determinant3(m11, m00, m02, m03, m20, m22, m23, m30, m32, m33);
    lemma_swap23(m00, m22, m33, m11);
    lemma_swap12(m00, m22, m11, m33);
    lemma_swap23(m00, m23, m32, m11);
    lemma_swap12(m00, m23, m11, m32);
    lemma_swap23(m02, m20, m33, m11);
    lemma_swap12(m02, m20, m11, m33);
    lemma_swap23(m02, m23, m30, m11);
    lemma_swap12(m02, m23, m11, m30);
    lemma_swap23(m03, m20, m32, m11);
    lemma_swap12(m03, m20, m11, m32);
    lemma_swap23(m03, m22, m30, m11);
    lemma_swap12(m03, m22, m11, m30);
    lemma_times_determinant3(m12, m00, m01, m03, m20, m21, m23, m30, m31, m33);
    lemma_mul_unary_negation(m12, m00 * (m21 * m33 - m31 * m23) - m01 * (m20 * m33 - m30 * m23)
        + m03 * (m20 * m31 - m30 * m21));
    lemma_swap23(m00, m21, m33, m12);
    lemma_swap12(m00, m21, m12, m33);
    lemma_swap23(m00, m23, m31, m12);
    lemma_swap12(m00, m23, m12, m31);
    lemma_swap23(m01, m20, m33, m12);
    lemma_swap12(m01, m20, m12, m33);
    lemma_swap23(m01, m23, m30, m12);
    lemma_swap12(m01, m23, m12, m30);
    lemma_swap23(m03, m20, m31, m12);
    lemma_swap12(m03, m20, m12, m31);
    lemma_swap23(m03, m21, m30, m12);
    lemma_swap12(m03, m21, m12, m30);
    lemma_times_determinant3(m13, m00, m01, m02, m20, m21, m22, m30, m31, m32);
    lemma_swap23(m00, m21, m32, m13);
    lemma_swap12(m00, m21, m13, m32);
    lemma_swap23(m00, m22, m31, m13);
    lemma_swap12(m00, m22, m13, m31);
    lemma_swap23(m01, m20, m32, m13);
    lemma_swap12(m01, m20, m13, m32);
    lemma_swap23(m01, m22, m30, m13);
    lemma_swap12(m01, m22, m13, m30);
    lemma_swap23(m02, m20, m31, m13);
    lemma_swap12(m02, m20, m13, m31);
    lemma_swap23(m02, m21, m30, m13);
    lemma_swap12(m02, m21, m13, m30);
}

/// The cofactor expansion along row 2.
pub proof fn lemma_row2_expansion4(m00: int, m01: int, m02: int, m03: int, m10: int, m11: int,
    m12: int, m13: int, m20: int, m21: int, m22: int, m23: int, m30: int, m31: int, m32: int,
    m33: int)
    ensures
        m20 * cofactor(matrix4(m00, m01, m02, m03, m10, m11, m12, m13, m20, m21, m22, m23, m30, m31,
            m32, m33), 2, 0) + m21 * cofactor(matrix4(m00, m01, m02, m03, m10, m11, m12, m13, m20,
            m21, m22, m23, m30, m31, m32, m33), 2, 1) + m22 * cofactor(matrix4(m00, m01, m02, m03,
            m10, m11, m12, m13, m20, m21, m22, m23, m30, m31, m32, m33), 2, 2)
            + m23 * cofactor(matrix4(m00, m01, m02, m03, m10, m11, m12, m13, m20, m21, m22, m23,
            m30, m31, m32, m33), 2, 3) == permutation_sum4(m00, m01, m02, m03, m10, m11, m12, m13,
            m20, m21, m22, m23, m30, m31, m32, m33),
{
    lemma_cofactors4(m00, m01, m02, m03, m10, m11, m12, m13, m20, m21, m22, m23, m30, m31, m32,
        m33);
    lemma_times_determinant3(m20, m01, m02, m03, m11, m12, m13, m31, m32, m33);
    lemma_swap23(m01, m12, m33, m20);
    lemma_swap23(m01, m13, m32, m20);
    lemma_swap23(m02, m11, m33, m20);
    lemma_swap23(m02, m13, m31, m20);
    lemma_swap23(m03, m11, m32, m20);
    lemma_swap23(m03, m12, m31, m20);
    lemma_times_determinant3(m21, m00, m02, m03, m10, m12, m13, m30, m32, m33);
    lemma_mul_unary_negation(m21, m00 * (m12 * m33 - m32 * m13) - m02 * (m10 * m33 - m30 * m13)
        + m03 * (m10 * m32 - m30 * m12));
    lemma_swap23(m00, m12, m33, m21);
    lemma_swap23(m00, m13, m32, m21);
    lemma_swap23(m02, m10, m33, m21);
    lemma_swap23(m02, m13, m30, m21);
    lemma_swap23(m03, m10, m32, m21);
    lemma_swap23(m03, m12, m30, m21);
    lemma_times_determinant3(m22, m00, m01, m03, m10, m11, m13, m30, m31, m33);
    lemma_swap23(m00, m11, m33, m22);
    lemma_swap23(m00, m13, m31, m22);
    lemma_swap23(m01, m10, m33, m22);
    lemma_swap23(m01, m13, m30, m22);
    lemma_swap23(m03, m10, m31, m22);
    lemma_swap23(m03, m11, m30, m22);
    lemma_times_determinant3(m23, m00, m01, m02, m10, m11, m12, m30, m31, m32);
    lemma_mul_unary_negation(m23, m00 * (m11 * m32 - m31 * m12) - m01 * (m10 * m32 - m30 * m12)
        + m02 * (m10 * m31 - m30 * m11));
    lemma_swap23(m00, m11, m32, m23);
    lemma_swap23(m00, m12, m31, m23);
    lemma_swap23(m01, m10, m32, m23);
    lemma_swap23(m01, m12, m30, m23);
    lemma_swap23(m02, m10, m31, m23);
    lemma_swap23(m02, m11, m30, m23);
}

/// The cofactor expansion along row 3.
pub proof fn lemma_row3_expansion4(m00: int, m01: int, m02: int, m03: int, m10: int, m11: int,
    m12: int, m13: int, m20: int, m21: int, m22: int, m23: int, m30: int, m31: int, m32: int,
    m33: int)
    ensures
        m30 * cofactor(matrix4(m00, m01, m02, m03, m10, m11, m12, m13, m20, m21, m22, m23, m30, m31,
            m32, m33), 3, 0) + m31 * cofactor(matrix4(m00, m01, m02, m03, m10, m11, m12, m13, m20,
            m21, m22, m23, m30, m31, m32, m33), 3, 1) + m32 * cofactor(matrix4(m00, m01, m02, m03,
            m10, m11, m12, m13, m20, m21, m22, m23, m30, m31, m32, m33), 3, 2)
            + m33 * cofactor(matrix4(m00, m01, m02, m03, m10, m11, m12, m13, m20, m21, m22, m23,
            m30, m31, m32, m33), 3, 3) == permutation_sum4(m00, m01, m02, m03, m10, m11, m12, m13,
            m20, m21, m22, m23, m30, m31, m32, m33),
{
    lemma_cofactors4(m00, m01, m02, m03, m10, m11, m12, m13, m20, m21, m22, m23, m30, m31, m32,
        m33);
    lemma_times_determinant3(m30, m01, m02, m03, m11, m12, m13, m21, m22, m23);
    lemma_mul_unary_negation(m30, m01 * (m12 * m23 - m22 * m13) - m02 * (m11 * m23 - m21 * m13)
        + m03 * (m11 * m22 - m21 * m12));
    lemma_times_determinant3(m31, m00, m02, m03, m10, m12, m13, m20, m22, m23);
    lemma_times_determinant3(m32, m00, m01, m03, m10, m11, m13, m20, m21, m23);
    lemma_mul_unary_negation(m32, m00 * (m11 * m23 - m21 * m13) - m01 * (m10 * m23 - m20 * m13)
        + m03 * (m10 * m21 - m20 * m11));
    lemma_times_determinant3(m33, m00, m01, m02, m10, m11, m12, m20, m21, m22);
}

/// Row 0 paired with the cofactors of row 1.
pub proof fn lemma_row0_with_cofactors1(m00: int, m01: int, m02: int, m03: int, m10: int, m11: int,
    m12: int, m13: int, m20: int, m21: int, m22: int, m23: int, m30: int, m31: int, m32: int,
    m33: int)
    ensures
        m00 * cofactor(matrix4(m00, m01, m02, m03, m10, m11, m12, m13, m20, m21, m22, m23, m30, m31,
            m32, m33), 1, 0) + m01 * cofactor(matrix4(m00, m01, m02, m03, m10, m11, m12, m13, m20,
            m21, m22, m23, m30, m31, m32, m33), 1, 1) + m02 * cofactor(matrix4(m00, m01, m02, m03,
            m10, m11, m12, m13, m20, m21, m22, m23, m30, m31, m32, m33), 1, 2)
            + m03 * cofactor(matrix4(m00, m01, m02, m03, m10, m11, m12, m13, m20, m21, m22, m23,
            m30, m31, m32, m33), 1, 3) == 0,
{
    lemma_cofactors4(m00, m01, m02, m03, m10, m11, m12, m13, m20, m21, m22, m23, m30, m31, m32,
        m33);
    lemma_times_determinant3(m00, m01, m02, m03, m21, m22, m23, m31, m32, m33);
    lemma_mul_unary_negation(m00, m01 * (m22 * m33 - m32 * m23) - m02 * (m21 * m33 - m31 * m23)
        + m03 * (m21 * m32 - m31 * m22));
    lemma_swap23(m01, m22, m33, m00);
    lemma_swap12(m01, m22, m00, m33);
    lemma_swap23(m01, m23, m32, m00);
    lemma_swap12(m01, m23, m00, m32);
    lemma_swap23(m02, m21, m33, m00);
    lemma_swap12(m02, m21, m00, m33);
    lemma_swap23(m02, m23, m31, m00);
    lemma_swap12(m02, m23, m00, m31);
    lemma_swap23(m03, m21, m32, m00);
    lemma_swap12(m03, m21, m00, m32);
    lemma_swap23(m03, m22, m31, m00);
    lemma_swap12(m03, m22, m00, m31);
    lemma_times_determinant3(m01, m00, m02, m03, m20, m22, m23, m30, m32, m33);
    lemma_swap23(m00, m22, m33, m01);
    lemma_swap12(m00, m22, m01, m33);
    lemma_swap23(m00, m23, m32, m01);
    lemma_swap12(m00, m23, m01, m32);
    lemma_swap23(m02, m20, m33, m01);
    lemma_swap12(m02, m20, m01, m33);
    lemma_swap23(m02, m23, m30, m01);
    lemma_swap12(m02, m23, m01, m30);
    lemma_swap23(m03, m20, m32, m01);
    lemma_swap12(m03, m20, m01, m32);
    lemma_swap23(m03, m22, m30, m01);
    lemma_swap12(m03, m22, m01, m30);
    lemma_times_determinant3(m02, m00, m01, m03, m20, m21, m23, m30, m31, m33);
    lemma_mul_unary_negation(m02, m00 * (m21 * m33 - m31 * m23) - m01 * (m20 * m33 - m30 * m23)
        + m03 * (m20 * m31 - m30 * m21));
    lemma_swap23(m00, m21, m33, m02);
    lemma_swap12(m00, m21, m02, m33);
    lemma_swap23(m00, m23, m31, m02);
    lemma_swap12(m00, m23, m02, m31);
    lemma_swap23(m01, m20, m33, m02);
    lemma_swap12(m01, m20, m02, m33);
    lemma_swap23(m01, m23, m30, m02);
    lemma_swap12(m01, m23, m02, m30);
    lemma_swap23(m03, m20, m31, m02);
    lemma_swap12(m03, m20, m02, m31);
    lemma_swap23(m03, m21, m30, m02);
    lemma_swap12(m03, m21, m02, m30);
    lemma_times_determinant3(m03, m00, m01, m02, m20, m21, m22, m30, m31, m32);
    lemma_swap23(m00, m21, m32, m03);
    lemma_swap12(m00, m21, m03, m32);
    lemma_swap23(m00, m22, m31, m03);
    lemma_swap12(m00, m22, m03, m31);
    lemma_swap23(m01, m20, m32, m03);
    lemma_swap12(m01, m20, m03, m32);
    lemma_swap23(m01, m22, m30, m03);
    lemma_swap12(m01, m22, m03, m30);
    lemma_swap23(m02, m20, m31, m03);
    lemma_swap12(m02, m20, m03, m31);
    lemma_swap23(m02, m21, m30, m03);
    lemma_swap12(m02, m21, m03, m30);
    lemma_swap01(m00, m01, m22, m33);
    lemma_swap01(m00, m01, m23, m32);
    lemma_swap01(m00, m02, m21, m33);
    lemma_swap01(m00, m02, m23, m31);
    lemma_swap01(m00, m03, m21, m32);
    lemma_swap01(m00, m03, m22, m31);
    lemma_swap01(m01, m02, m20, m33);
    lemma_swap01(m01, m02, m23, m30);
    lemma_swap01(m01, m03, m20, m32);
    lemma_swap01(m01, m03, m22, m30);
    lemma_swap01(m02, m03, m20, m31);
    lemma_swap01(m02, m03, m21, m30);
}

/// Row 0 paired with the cofactors of row 2.
pub proof fn lemma_row0_with_cofactors2(m00: int, m01: int, m02: int, m03: int, m10: int, m11: int,
    m12: int, m13: int, m20: int, m21: int, m22: int, m23: int, m30: int, m31: int, m32: int,
    m33: int)
    ensures
        m00 * cofactor(matrix4(m00, m01, m02, m03, m10, m11, m12, m13, m20, m21, m22, m23, m30, m31,
            m32, m33), 2, 0) + m01 * cofactor(matrix4(m00, m01, m02, m03, m10, m11, m12, m13, m20,
            m21, m22, m23, m30, m31, m32, m33), 2, 1) + m02 * cofactor(matrix4(m00, m01, m02, m03,
            m10, m11, m12, m13, m20, m21, m22, m23, m30, m31, m32, m33), 2, 2)
            + m03 * cofactor(matrix4(m00, m01, m02, m03, m10, m11, m12, m13, m20, m21, m22, m23,
            m30, m31, m32, m33), 2, 3) == 0,
{
    lemma_cofactors4(m00, m01, m02, m03, m10, m11, m12, m13, m20, m21, m22, m23, m30, m31, m32,
        m33);
    lemma_times_determinant3(m00, m01, m02, m03, m11, m12, m13, m31, m32, m33);
    lemma_swap23(m01, m12, m33, m00);
    lemma_swap23(m01, m13, m32, m00);
    lemma_swap23(m02, m11, m33, m00);
    lemma_swap23(m02, m13, m31, m00);
    lemma_swap23(m03, m11, m32, m00);
    lemma_swap23(m03, m12, m31, m00);
    lemma_times_determinant3(m01, m00, m02, m03, m10, m12, m13, m30, m32, m33);
    lemma_mul_unary_negation(m01, m00 * (m12 * m33 - m32 * m13) - m02 * (m10 * m33 - m30 * m13)
        + m03 * (m10 * m32 - m30 * m12));
    lemma_swap23(m00, m12, m33, m01);
    lemma_swap23(m00, m13, m32, m01);
    lemma_swap23(m02, m10, m33, m01);
    lemma_swap23(m02, m13, m30, m01);
    lemma_swap23(m03, m10, m32, m01);
    lemma_swap23(m03, m12, m30, m01);
    lemma_times_determinant3(m02, m00, m01, m03, m10, m11, m13, m30, m31, m33);
    lemma_swap23(m00, m11, m33, m02);
    lemma_swap23(m00, m13, m31, m02);
    lemma_swap23(m01, m10, m33, m02);
    lemma_swap23(m01, m13, m30, m02);
    lemma_swap23(m03, m10, m31, m02);
    lemma_swap23(m03, m11, m30, m02);
    lemma_times_determinant3(m03, m00, m01, m02, m10, m11, m12, m30, m31, m32);
    lemma_mul_unary_negation(m03, m00 * (m11 * m32 - m31 * m12) - m01 * (m10 * m32 - m30 * m12)
        + m02 * (m10 * m31 - m30 * m11));
    lemma_swap23(m00, m11, m32, m03);
    lemma_swap23(m00, m12, m31, m03);
    lemma_swap23(m01, m10, m32, m03);
    lemma_swap23(m01, m12, m30, m03);
    lemma_swap23(m02, m10, m31, m03);
    lemma_swap23(m02, m11, m30, m03);
    lemma_swap12(m00, m11, m02, m33);
    lemma_swap01(m00, m02, m11, m33);
    lemma_swap12(m02, m00, m11, m33);
    lemma_swap12(m00, m11, m03, m32);
    lemma_swap01(m00, m03, m11, m32);
    lemma_swap12(m03, m00, m11, m32);
    lemma_swap12(m00, m12, m01, m33);
    lemma_swap01(m00, m01, m12, m33);
    lemma_swap12(m01, m00, m12, m33);
    lemma_swap12(m00, m12, m03, m31);
    lemma_swap01(m00, m03, m12, m31);
    lemma_swap12(m03, m00, m12, m31);
    lemma_swap12(m00, m13, m01, m32);
    lemma_swap01(m00, m01, m13, m32);
    lemma_swap12(m01, m00, m13, m32);
    lemma_swap12(m00, m13, m02, m31);
    lemma_swap01(m00, m02, m13, m31);
    lemma_swap12(m02, m00, m13, m31);
    lemma_swap12(m01, m10, m02, m33);
    lemma_swap01(m01, m02, m10, m33);
    lemma_swap12(m02, m01, m10, m33);
    lemma_swap12(m01, m10, m03, m32);
    lemma_swap01(m01, m03, m10, m32);
    lemma_swap12(m03, m01, m10, m32);
    lemma_swap12(m01, m12, m03, m30);
    lemma_swap01(m01, m03, m12, m30);
    lemma_swap12(m03, m01, m12, m30);
    lemma_swap12(m01, m13, m02, m30);
    lemma_swap01(m01, m02, m13, m30);
    lemma_swap12(m02, m01, m13, m30);
    lemma_swap12(m02, m10, m03, m31);
    lemma_swap01(m02, m03, m10, m31);
    lemma_swap12(m03, m02, m10, m31);
    lemma_swap12(m02, m11, m03, m30);
    lemma_swap01(m02, m03, m11, m30);
    lemma_swap12(m03, m02, m11, m30);
}

/// Row 0 paired with the cofactors of row 3.
pub proof fn lemma_row0_with_cofactors3(m00: int, m01: int, m02: int, m03: int, m10: int, m11: int,
    m12: int, m13: int, m20: int, m21: int, m22: int, m23: int, m30: int, m31: int, m32: int,
    m33: int)
    ensures
        m00 * cofactor(matrix4(m00, m01, m02, m03, m10, m11, m12, m13, m20, m21, m22, m23, m30, m31,
            m32, m33), 3, 0) + m01 * cofactor(matrix4(m00, m01, m02, m03, m10, m11, m12, m13, m20,
            m21, m22, m23, m30, m31, m32, m33), 3, 1) + m02 * cofactor(matrix4(m00, m01, m02, m03,
            m10, m11, m12, m13, m20, m21, m22, m23, m30, m31, m32, m33), 3, 2)
            + m03 * cofactor(matrix4(m00, m01, m02, m03, m10, m11, m12, m13, m20, m21, m22, m23,
            m30, m31, m32, m33), 3, 3) == 0,
{
    lemma_cofactors4(m00, m01, m02, m03, m10, m11, m12, m13, m20, m21, m22, m23, m30, m31, m32,
        m33);
    lemma_times_determinant3(m00, m01, m02, m03, m11, m12, m13, m21, m22, m23);
    lemma_mul_unary_negation(m00, m01 * (m12 * m23 - m22 * m13) - m02 * (m11 * m23 - m21 * m13)
        + m03 * (m11 * m22 - m21 * m12));
    lemma_times_determinant3(m01, m00, m02, m03, m10, m12, m13, m20, m22, m23);
    lemma_times_determinant3(m02, m00, m01, m03, m10, m11, m13, m20, m21, m23);
    lemma_mul_unary_negation(m02, m00 * (m11 * m23 - m21 * m13) - m01 * (m10 * m23 - m20 * m13)
        + m03 * (m10 * m21 - m20 * m11));
    lemma_times_determinant3(m03, m00, m01, m02, m10, m11, m12, m20, m21, m22);
    lemma_swap23(m00, m11, m22, m03);
    lemma_swap12(m00, m11, m03, m22);
    lemma_swap01(m00, m03, m11, m22);
    lemma_swap12(m03, m00, m11, m22);
    lemma_swap23(m03, m11, m00, m22);
    lemma_swap23(m00, m11, m23, m02);
    lemma_swap12(m00, m11, m02, m23);
    lemma_swap01(m00, m02, m11, m23);
    lemma_swap12(m02, m00, m11, m23);
    lemma_swap23(m02, m11, m00, m23);
    lemma_swap23(m00, m12, m21, m03);
    lemma_swap12(m00, m12, m03, m21);
    lemma_swap01(m00, m03, m12, m21);
    lemma_swap12(m03, m00, m12, m21);
    lemma_swap23(m03, m12, m00, m21);
    lemma_swap23(m00, m12, m23, m01);
    lemma_swap12(m00, m12, m01, m23);
    lemma_swap01(m00, m01, m12, m23);
    lemma_swap12(m01, m00, m12, m23);
    lemma_swap23(m01, m12, m00, m23);
    lemma_swap23(m00, m13, m21, m02);
    lemma_swap12(m00, m13, m02, m21);
    lemma_swap01(m00, m02, m13, m21);
    lemma_swap12(m02, m00, m13, m21);
    lemma_swap23(m02, m13, m00, m21);
    lemma_swap23(m00, m13, m22, m01);
    lemma_swap12(m00, m13, m01, m22);
    lemma_swap01(m00, m01, m13, m22);
    lemma_swap12(m01, m00, m13, m22);
    lemma_swap23(m01, m13, m00, m22);
    lemma_swap23(m01, m10, m22, m03);
    lemma_swap12(m01, m10, m03, m22);
    lemma_swap01(m01, m03, m10, m22);
    lemma_swap12(m03, m01, m10, m22);
    lemma_swap23(m03, m10, m01, m22);
    lemma_swap23(m01, m10, m23, m02);
    lemma_swap12(m01, m10, m02, m23);
    lemma_swap01(m01, m02, m10, m23);
    lemma_swap12(m02, m01, m10, m23);
    lemma_swap23(m02, m10, m01, m23);
    lemma_swap23(m01, m12, m20, m03);
    lemma_swap12(m01, m12, m03, m20);
    lemma_swap01(m01, m03, m12, m20);
    lemma_swap12(m03, m01, m12, m20);
    lemma_swap23(m03, m12, m01, m20);
    lemma_swap23(m01, m13, m20, m02);
    lemma_swap12(m01, m13, m02, m20);
    lemma_swap01(m01, m02, m13, m20);
    lemma_swap12(m02, m01, m13, m20);
    lemma_swap23(m02, m13, m01, m20);
    lemma_swap23(m02, m10, m21, m03);
    lemma_swap12(m02, m10, m03, m21);
    lemma_swap01(m02, m03, m10, m21);
    lemma_swap12(m03, m02, m10, m21);
    lemma_swap23(m03, m10, m02, m21);
    lemma_swap23(m02, m11, m20, m03);
    lemma_swap12(m02, m11, m03, m20);
    lemma_swap01(m02, m03, m11, m20);
    lemma_swap12(m03, m02, m11, m20);
    lemma_swap23(m03, m11, m02, m20);
}

/// Row 1 paired with the cofactors of row 0.
pub proof fn lemma_row1_with_cofactors0(m00: int, m01: int, m02: int, m03: int, m10: int, m11: int,
    m12: int, m13: int, m20: int, m21: int, m22: int, m23: int, m30: int, m31: int, m32: int,
    m33: int)
    ensures
        m10 * cofactor(matrix4(m00, m01, m02, m03, m10, m11, m12, m13, m20, m21, m22, m23, m30, m31,
            m32, m33), 0, 0) + m11 * cofactor(matrix4(m00, m01, m02, m03, m10, m11, m12, m13, m20,
            m21, m22, m23, m30, m31, m32, m33), 0, 1) + m12 * cofactor(matrix4(m00, m01, m02, m03,
            m10, m11, m12, m13, m20, m21, m22, m23, m30, m31, m32, m33), 0, 2)
            + m13 * cofactor(matrix4(m00, m01, m02, m03, m10, m11, m12, m13, m20, m21, m22, m23,
            m30, m31, m32, m33), 0, 3) == 0,
{
    lemma_cofactors4(m00, m01, m02, m03, m10, m11, m12, m13, m20, m21, m22, m23, m30, m31, m32,
        m33);
    lemma_times_determinant3(m10, m11, m12, m13, m21, m22, m23, m31, m32, m33);
    lemma_swap23(m11, m22, m33, m10);
    lemma_swap12(m11, m22, m10, m33);
    lemma_swap01(m11, m10, m22, m33);
    lemma_swap23(m11, m23, m32, m10);
    lemma_swap12(m11, m23, m10, m32);
    lemma_swap01(m11, m10, m23, m32);
    lemma_swap23(m12, m21, m33, m10);
    lemma_swap12(m12, m21, m10, m33);
    lemma_swap01(m12, m10, m21, m33);
    lemma_swap23(m12, m23, m31, m10);
    lemma_swap12(m12, m23, m10, m31);
    lemma_swap01(m12, m10, m23, m31);
    lemma_swap23(m13, m21, m32, m10);
    lemma_swap12(m13, m21, m10, m32);
    lemma_swap01(m13, m10, m21, m32);
    lemma_swap23(m13, m22, m31, m10);
    lemma_swap12(m13, m22, m10, m31);
    lemma_swap01(m13, m10, m22, m31);
    lemma_times_determinant3(m11, m10, m12, m13, m20, m22, m23, m30, m32, m33);
    lemma_mul_unary_negation(m11, m10 * (m22 * m33 - m32 * m23) - m12 * (m20 * m33 - m30 * m23)
        + m13 * (m20 * m32 - m30 * m22));
    lemma_swap23(m10, m22, m33, m11);
    lemma_swap12(m10, m22, m11, m33);
    lemma_swap01(m10, m11, m22, m33);
    lemma_swap23(m10, m23, m32, m11);
    lemma_swap12(m10, m23, m11, m32);
    lemma_swap01(m10, m11, m23, m32);
    lemma_swap23(m12, m20, m33, m11);
    lemma_swap12(m12, m20, m11, m33);
    lemma_swap01(m12, m11, m20, m33);
    lemma_swap23(m12, m23, m30, m11);
    lemma_swap12(m12, m23, m11, m30);
    lemma_swap01(m12, m11, m23, m30);
    lemma_swap23(m13, m20, m32, m11);
    lemma_swap12(m13, m20, m11, m32);
    lemma_swap01(m13, m11, m20, m32);
    lemma_swap23(m13, m22, m30, m11);
    lemma_swap12(m13, m22, m11, m30);
    lemma_swap01(m13, m11, m22, m30);
    lemma_times_determinant3(m12, m10, m11, m13, m20, m21, m23, m30, m31, m33);
    lemma_swap23(m10, m21, m33, m12);
    lemma_swap12(m10, m21, m12, m33);
    lemma_swap01(m10, m12, m21, m33);
    lemma_swap23(m10, m23, m31, m12);
    lemma_swap12(m10, m23, m12, m31);
    lemma_swap01(m10, m12, m23, m31);
    lemma_swap23(m11, m20, m33, m12);
    lemma_swap12(m11, m20, m12, m33);
    lemma_swap01(m11, m12, m20, m33);
    lemma_swap23(m11, m23, m30, m12);
    lemma_swap12(m11, m23, m12, m30);
    lemma_swap01(m11, m12, m23, m30);
    lemma_swap23(m13, m20, m31, m12);
    lemma_swap12(m13, m20, m12, m31);
    lemma_swap01(m13, m12, m20, m31);
    lemma_swap23(m13, m21, m30, m12);
    lemma_swap12(m13, m21, m12, m30);
    lemma_swap01(m13, m12, m21, m30);
    lemma_times_determinant3(m13, m10, m11, m12, m20, m21, m22, m30, m31, m32);
    lemma_mul_unary_negation(m13, m10 * (m21 * m32 - m31 * m22) - m11 * (m20 * m32 - m30 * m22)
        + m12 * (m20 * m31 - m30 * m21));
    lemma_swap23(m10, m21, m32, m13);
    lemma_swap12(m10, m21, m13, m32);
    lemma_swap01(m10, m13, m21, m32);
    lemma_swap23(m10, m22, m31, m13);
    lemma_swap12(m10, m22, m13, m31);
    lemma_swap01(m10, m13, m22, m31);
    lemma_swap23(m11, m20, m32, m13);
    lemma_swap12(m11, m20, m13, m32);
    lemma_swap01(m11, m13, m20, m32);
    lemma_swap23(m11, m22, m30, m13);
    lemma_swap12(m11, m22, m13, m30);
    lemma_swap01(m11, m13, m22, m30);
    lemma_swap23(m12, m20, m31, m13);
    lemma_swap12(m12, m20, m13, m31);
    lemma_swap01(m12, m13, m20, m31);
    lemma_swap23(m12, m21, m30, m13);
    lemma_swap12(m12, m21, m13, m30);
    lemma_swap01(m12, m13, m21, m30);
    lemma_swap01(m10, m11, m22, m33);
    lemma_swap01(m10, m11, m23, m32);
    lemma_swap01(m10, m12, m21, m33);
    lemma_swap01(m10, m12, m23, m31);
    lemma_swap01(m10, m13, m21, m32);
    lemma_swap01(m10, m13, m22, m31);
    lemma_swap01(m11, m12, m20, m33);
    lemma_swap01(m11, m12, m23, m30);
    lemma_swap01(m11, m13, m20, m32);
    lemma_swap01(m11, m13, m22, m30);
    lemma_swap01(m12, m13, m20, m31);
    lemma_swap01(m12, m13, m21, m30);
}

/// Row 1 paired with the cofactors of row 2.
pub proof fn lemma_row1_with_cofactors2(m00: int, m01: int, m02: int, m03: int, m10: int, m11: int,
    m12: int, m13: int, m20: int, m21: int, m22: int, m23: int, m30: int, m31: int, m32: int,
    m33: int)
    ensures
        m10 * cofactor(matrix4(m00, m01, m02, m03, m10, m11, m12, m13, m20, m21, m22, m23, m30, m31,
            m32, m33), 2, 0) + m11 * cofactor(matrix4(m00, m01, m02, m03, m10, m11, m12, m13, m20,
            m21, m22, m23, m30, m31, m32, m33), 2, 1) + m12 * cofactor(matrix4(m00, m01, m02, m03,
            m10, m11, m12, m13, m20, m21, m22, m23, m30, m31, m32, m33), 2, 2)
            + m13 * cofactor(matrix4(m00, m01, m02, m03, m10, m11, m12, m13, m20, m21, m22, m23,
            m30, m31, m32, m33), 2, 3) == 0,
{
    lemma_cofactors4(m00, m01, m02, m03, m10, m11, m12, m13, m20, m21, m22, m23, m30, m31, m32,
        m33);
    lemma_times_determinant3(m10, m01, m02, m03, m11, m12, m13, m31, m32, m33);
    lemma_swap23(m01, m12, m33, m10);
    lemma_swap23(m01, m13, m32, m10);
    lemma_swap23(m02, m11, m33, m10);
    lemma_swap23(m02, m13, m31, m10);
    lemma_swap23(m03, m11, m32, m10);
    lemma_swap23(m03, m12, m31, m10);
    lemma_times_determinant3(m11, m00, m02, m03, m10, m12, m13, m30, m32, m33);
    lemma_mul_unary_negation(m11, m00 * (m12 * m33 - m32 * m13) - m02 * (m10 * m33 - m30 * m13)
        + m03 * (m10 * m32 - m30 * m12));
    lemma_swap23(m00, m12, m33, m11);
    lemma_swap23(m00, m13, m32, m11);
    lemma_swap23(m02, m10, m33, m11);
    lemma_swap23(m02, m13, m30, m11);
    lemma_swap23(m03, m10, m32, m11);
    lemma_swap23(m03, m12, m30, m11);
    lemma_times_determinant3(m12, m00, m01, m03, m10, m11, m13, m30, m31, m33);
    lemma_swap23(m00, m11, m33, m12);
    lemma_swap23(m00, m13, m31, m12);
    lemma_swap23(m01, m10, m33, m12);
    lemma_swap23(m01, m13, m30, m12);
    lemma_swap23(m03, m10, m31, m12);
    lemma_swap23(m03, m11, m30, m12);
    lemma_times_determinant3(m13, m00, m01, m02, m10, m11, m12, m30, m31, m32);
    lemma_mul_unary_negation(m13, m00 * (m11 * m32 - m31 * m12) - m01 * (m10 * m32 - m30 * m12)
        + m02 * (m10 * m31 - m30 * m11));
    lemma_swap23(m00, m11, m32, m13);
    lemma_swap23(m00, m12, m31, m13);
    lemma_swap23(m01, m10, m32, m13);
    lemma_swap23(m01, m12, m30, m13);
    lemma_swap23(m02, m10, m31, m13);
    lemma_swap23(m02, m11, m30, m13);
    lemma_swap12(m00, m11, m12, m33);
    lemma_swap12(m00, m11, m13, m32);
    lemma_swap12(m00, m12, m13, m31);
    lemma_swap12(m01, m10, m12, m33);
    lemma_swap12(m01, m10, m13, m32);
    lemma_swap12(m01, m12, m13, m30);
    lemma_swap12(m02, m10, m11, m33);
    lemma_swap12(m02, m10, m13, m31);
    lemma_swap12(m02, m11, m13, m30);
    lemma_swap12(m03, m10, m11, m32);
    lemma_swap12(m03, m10, m12, m31);
    lemma_swap12(m03, m11, m12, m30);
}

/// Row 1 paired with the cofactors of row 3.
pub proof fn lemma_row1_with_cofactors3(m00: int, m01: int, m02: int, m03: int, m10: int, m11: int,
    m12: int, m13: int, m20: int, m21: int, m22: int, m23: int, m30: int, m31: int, m32: int,
    m33: int)
    ensures
        m10 * cofactor(matrix4(m00, m01, m02, m03, m10, m11, m12, m13, m20, m21, m22, m23, m30, m31,
            m32, m33), 3, 0) + m11 * cofactor(matrix4(m00, m01, m02, m03, m10, m11, m12, m13, m20,
            m21, m22, m23, m30, m31, m32, m33), 3, 1) + m12 * cofactor(matrix4(m00, m01, m02, m03,
            m10, m11, m12, m13, m20, m21, m22, m23, m30, m31, m32, m33), 3, 2)
            + m13 * cofactor(matrix4(m00, m01, m02, m03, m10, m11, m12, m13, m20, m21, m22, m23,
            m30, m31, m32, m33), 3, 3) == 0,
{
    lemma_cofactors4(m00, m01, m02, m03, m10, m11, m12, m13, m20, m21, m22, m23, m30, m31, m32,
        m33);
    lemma_times_determinant3(m10, m01, m02, m03, m11, m12, m13, m21, m22, m23);
    lemma_mul_unary_negation(m10, m01 * (m12 * m23 - m22 * m13) - m02 * (m11 * m23 - m21 * m13)
        + m03 * (m11 * m22 - m21 * m12));
    lemma_times_determinant3(m11, m00, m02, m03, m10, m12, m13, m20, m22, m23);
    lemma_times_determinant3(m12, m00, m01, m03, m10, m11, m13, m20, m21, m23);
    lemma_mul_unary_negation(m12, m00 * (m11 * m23 - m21 * m13) - m01 * (m10 * m23 - m20 * m13)
        + m03 * (m10 * m21 - m20 * m11));
    lemma_times_determinant3(m13, m00, m01, m02, m10, m11, m12, m20, m21, m22);
    lemma_swap23(m00, m11, m22, m13);
    lemma_swap12(m00, m11, m13, m22);
    lemma_swap23(m00, m13, m11, m22);
    lemma_swap23(m00, m11, m23, m12);
    lemma_swap12(m00, m11, m12, m23);
    lemma_swap23(m00, m12, m11, m23);
    lemma_swap23(m00, m12, m21, m13);
    lemma_swap12(m00, m12, m13, m21);
    lemma_swap23(m00, m13, m12, m21);
    lemma_swap23(m01, m10, m22, m13);
    lemma_swap12(m01, m10, m13, m22);
    lemma_swap23(m01, m13, m10, m22);
    lemma_swap23(m01, m10, m23, m12);
    lemma_swap12(m01, m10, m12, m23);
    lemma_swap23(m01, m12, m10, m23);
    lemma_swap23(m01, m12, m20, m13);
    lemma_swap12(m01, m12, m13, m20);
    lemma_swap23(m01, m13, m12, m20);
    lemma_swap23(m02, m10, m21, m13);
    lemma_swap12(m02, m10, m13, m21);
    lemma_swap23(m02, m13, m10, m21);
    lemma_swap23(m02, m10, m23, m11);
    lemma_swap12(m02, m10, m11, m23);
    lemma_swap23(m02, m11, m10, m23);
    lemma_swap23(m02, m11, m20, m13);
    lemma_swap12(m02, m11, m13, m20);
    lemma_swap23(m02, m13, m11, m20);
    lemma_swap23(m03, m10, m21, m12);
    lemma_swap12(m03, m10, m12, m21);
    lemma_swap23(m03, m12, m10, m21);
    lemma_swap23(m03, m10, m22, m11);
    lemma_swap12(m03, m10, m11, m22);
    lemma_swap23(m03, m11, m10, m22);
    lemma_swap23(m03, m11, m20, m12);
    lemma_swap12(m03, m11, m12, m20);
    lemma_swap23(m03, m12, m11, m20);
}

/// Row 2 paired with the cofactors of row 0.
pub proof fn lemma_row2_with_cofactors0(m00: int, m01: int, m02: int, m03: int, m10: int, m11: int,
    m12: int, m13: int, m20: int, m21: int, m22: int, m23: int, m30: int, m31: int, m32: int,
    m33: int)
    ensures
        m20 * cofactor(matrix4(m00, m01, m02, m03, m10, m11, m12, m13, m20, m21, m22, m23, m30, m31,
            m32, m33), 0, 0) + m21 * cofactor(matrix4(m00, m01, m02, m03, m10, m11, m12, m13, m20,
            m21, m22, m23, m30, m31, m32, m33), 0, 1) + m22 * cofactor(matrix4(m00, m01, m02, m03,
            m10, m11, m12, m13, m20, m21, m22, m23, m30, m31, m32, m33), 0, 2)
            + m23 * cofactor(matrix4(m00, m01, m02, m03, m10, m11, m12, m13, m20, m21, m22, m23,
            m30, m31, m32, m33), 0, 3) == 0,
{
    lemma_cofactors4(m00, m01, m02, m03, m10, m11, m12, m13, m20, m21, m22, m23, m30, m31, m32,
        m33);
    lemma_times_determinant3(m20, m11, m12, m13, m21, m22, m23, m31, m32, m33);
    lemma_swap23(m11, m22, m33, m20);
    lemma_swap12(m11, m22, m20, m33);
    lemma_swap01(m11, m20, m22, m33);
    lemma_swap23(m11, m23, m32, m20);
    lemma_swap12(m11, m23, m20, m32);
    lemma_swap01(m11, m20, m23, m32);
    lemma_swap23(m12, m21, m33, m20);
    lemma_swap12(m12, m21, m20, m33);
    lemma_swap01(m12, m20, m21, m33);
    lemma_swap23(m12, m23, m31, m20);
    lemma_swap12(m12, m23, m20, m31);
    lemma_swap01(m12, m20, m23, m31);
    lemma_swap23(m13, m21, m32, m20);
    lemma_swap12(m13, m21, m20, m32);
    lemma_swap01(m13, m20, m21, m32);
    lemma_swap23(m13, m22, m31, m20);
    lemma_swap12(m13, m22, m20, m31);
    lemma_swap01(m13, m20, m22, m31);
    lemma_times_determinant3(m21, m10, m12, m13, m20, m22, m23, m30, m32, m33);
    lemma_mul_unary_negation(m21, m10 * (m22 * m33 - m32 * m23) - m12 * (m20 * m33 - m30 * m23)
        + m13 * (m20 * m32 - m30 * m22));
    lemma_swap23(m10, m22, m33, m21);
    lemma_swap12(m10, m22, m21, m33);
    lemma_swap01(m10, m21, m22, m33);
    lemma_swap23(m10, m23, m32, m21);
    lemma_swap12(m10, m23, m21, m32);
    lemma_swap01(m10, m21, m23, m32);
    lemma_swap23(m12, m20, m33, m21);
    lemma_swap12(m12, m20, m21, m33);
    lemma_swap01(m12, m21, m20, m33);
    lemma_swap23(m12, m23, m30, m21);
    lemma_swap12(m12, m23, m21, m30);
    lemma_swap01(m12, m21, m23, m30);
    lemma_swap23(m13, m20, m32, m21);
    lemma_swap12(m13, m20, m21, m32);
    lemma_swap01(m13, m21, m20, m32);
    lemma_swap23(m13, m22, m30, m21);
    lemma_swap12(m13, m22, m21, m30);
    lemma_swap01(m13, m21, m22, m30);
    lemma_times_determinant3(m22, m10, m11, m13, m20, m21, m23, m30, m31, m33);
    lemma_swap23(m10, m21, m33, m22);
    lemma_swap12(m10, m21, m22, m33);
    lemma_swap01(m10, m22, m21, m33);
    lemma_swap23(m10, m23, m31, m22);
    lemma_swap12(m10, m23, m22, m31);
    lemma_swap01(m10, m22, m23, m31);
    lemma_swap23(m11, m20, m33, m22);
    lemma_swap12(m11, m20, m22, m33);
    lemma_swap01(m11, m22, m20, m33);
    lemma_swap23(m11, m23, m30, m22);
    lemma_swap12(m11, m23, m22, m30);
    lemma_swap01(m11, m22, m23, m30);
    lemma_swap23(m13, m20, m31, m22);
    lemma_swap12(m13, m20, m22, m31);
    lemma_swap01(m13, m22, m20, m31);
    lemma_swap23(m13, m21, m30, m22);
    lemma_swap12(m13, m21, m22, m30);
    lemma_swap01(m13, m22, m21, m30);
    lemma_times_determinant3(m23, m10, m11, m12, m20, m21, m22, m30, m31, m32);
    lemma_mul_unary_negation(m23, m10 * (m21 * m32 - m31 * m22) - m11 * (m20 * m32 - m30 * m22)
        + m12 * (m20 * m31 - m30 * m21));
    lemma_swap23(m10, m21, m32, m23);
    lemma_swap12(m10, m21, m23, m32);
    lemma_swap01(m10, m23, m21, m32);
    lemma_swap23(m10, m22, m31, m23);
    lemma_swap12(m10, m22, m23, m31);
    lemma_swap01(m10, m23, m22, m31);
    lemma_swap23(m11, m20, m32, m23);
    lemma_swap12(m11, m20, m23, m32);
    lemma_swap01(m11, m23, m20, m32);
    lemma_swap23(m11, m22, m30, m23);
    lemma_swap12(m11, m22, m23, m30);
    lemma_swap01(m11, m23, m22, m30);
    lemma_swap23(m12, m20, m31, m23);
    lemma_swap12(m12, m20, m23, m31);
    lemma_swap01(m12, m23, m20, m31);
    lemma_swap23(m12, m21, m30, m23);
    lemma_swap12(m12, m21, m23, m30);
    lemma_swap01(m12, m23, m21, m30);
    lemma_swap12(m20, m11, m22, m33);
    lemma_swap01(m20, m22, m11, m33);
    lemma_swap12(m22, m20, m11, m33);
    lemma_swap12(m20, m11, m23, m32);
    lemma_swap01(m20, m23, m11, m32);
    lemma_swap12(m23, m20, m11, m32);
    lemma_swap12(m20, m12, m21, m33);
    lemma_swap01(m20, m21, m12, m33);
    lemma_swap12(m21, m20, m12, m33);
    lemma_swap12(m20, m12, m23, m31);
    lemma_swap01(m20, m23, m12, m31);
    lemma_swap12(m23, m20, m12, m31);
    lemma_swap12(m20, m13, m21, m32);
    lemma_swap01(m20, m21, m13, m32);
    lemma_swap12(m21, m20, m13, m32);
    lemma_swap12(m20, m13, m22, m31);
    lemma_swap01(m20, m22, m13, m31);
    lemma_swap12(m22, m20, m13, m31);
    lemma_swap12(m21, m10, m22, m33);
    lemma_swap01(m21, m22, m10, m33);
    lemma_swap12(m22, m21, m10, m33);
    lemma_swap12(m21, m10, m23, m32);
    lemma_swap01(m21, m23, m10, m32);
    lemma_swap12(m23, m21, m10, m32);
    lemma_swap12(m21, m12, m23, m30);
    lemma_swap01(m21, m23, m12, m30);
    lemma_swap12(m23, m21, m12, m30);
    lemma_swap12(m21, m13, m22, m30);
    lemma_swap01(m21, m22, m13, m30);
    lemma_swap12(m22, m21, m13, m30);
    lemma_swap12(m22, m10, m23, m31);
    lemma_swap01(m22, m23, m10, m31);
    lemma_swap12(m23, m22, m10, m31);
    lemma_swap12(m22, m11, m23, m30);
    lemma_swap01(m22, m23, m11, m30);
    lemma_swap12(m23, m22, m11, m30);
}

/// Row 2 paired with the cofactors of row 1.
pub proof fn lemma_row2_with_cofactors1(m00: int, m01: int, m02: int, m03: int, m10: int, m11: int,
    m12: int, m13: int, m20: int, m21: int, m22: int, m23: int, m30: int, m31: int, m32: int,
    m33: int)
    ensures
        m20 * cofactor(matrix4(m00, m01, m02, m03, m10, m11, m12, m13, m20, m21, m22, m23, m30, m31,
            m32, m33), 1, 0) + m21 * cofactor(matrix4(m00, m01, m02, m03, m10, m11, m12, m13, m20,
            m21, m22, m23, m30, m31, m32, m33), 1, 1) + m22 * cofactor(matrix4(m00, m01, m02, m03,
            m10, m11, m12, m13, m20, m21, m22, m23, m30, m31, m32, m33), 1, 2)
            + m23 * cofactor(matrix4(m00, m01, m02, m03, m10, m11, m12, m13, m20, m21, m22, m23,
            m30, m31, m32, m33), 1, 3) == 0,
{
    lemma_cofactors4(m00, m01, m02, m03, m10, m11, m12, m13, m20, m21, m22, m23, m30, m31, m32,
        m33);
    lemma_times_determinant3(m20, m01, m02, m03, m21, m22, m23, m31, m32, m33);
    lemma_mul_unary_negation(m20, m01 * (m22 * m33 - m32 * m23) - m02 * (m21 * m33 - m31 * m23)
        + m03 * (m21 * m32 - m31 * m22));
    lemma_swap23(m01, m22, m33, m20);
    lemma_swap12(m01, m22, m20, m33);
    lemma_swap23(m01, m23, m32, m20);
    lemma_swap12(m01, m23, m20, m32);
    lemma_swap23(m02, m21, m33, m20);
    lemma_swap12(m02, m21, m20, m33);
    lemma_swap23(m02, m23, m31, m20);
    lemma_swap12(m02, m23, m20, m31);
    lemma_swap23(m03, m21, m32, m20);
    lemma_swap12(m03, m21, m20, m32);
    lemma_swap23(m03, m22, m31, m20);
    lemma_swap12(m03, m22, m20, m31);
    lemma_times_determinant3(m21, m00, m02, m03, m20, m22, m23, m30, m32, m33);
    lemma_swap23(m00, m22, m33, m21);
    lemma_swap12(m00, m22, m21, m33);
    lemma_swap23(m00, m23, m32, m21);
    lemma_swap12(m00, m23, m21, m32);
    lemma_swap23(m02, m20, m33, m21);
    lemma_swap12(m02, m20, m21, m33);
    lemma_swap23(m02, m23, m30, m21);
    lemma_swap12(m02, m23, m21, m30);
    lemma_swap23(m03, m20, m32, m21);
    lemma_swap12(m03, m20, m21, m32);
    lemma_swap23(m03, m22, m30, m21);
    lemma_swap12(m03, m22, m21, m30);
    lemma_times_determinant3(m22, m00, m01, m03, m20, m21, m23, m30, m31, m33);
    lemma_mul_unary_negation(m22, m00 * (m21 * m33 - m31 * m23) - m01 * (m20 * m33 - m30 * m23)
        + m03 * (m20 * m31 - m30 * m21));
    lemma_swap23(m00, m21, m33, m22);
    lemma_swap12(m00, m21, m22, m33);
    lemma_swap23(m00, m23, m31, m22);
    lemma_swap12(m00, m23, m22, m31);
    lemma_swap23(m01, m20, m33, m22);
    lemma_swap12(m01, m20, m22, m33);
    lemma_swap23(m01, m23, m30, m22);
    lemma_swap12(m01, m23, m22, m30);
    lemma_swap23(m03, m20, m31, m22);
    lemma_swap12(m03, m20, m22, m31);
    lemma_swap23(m03, m21, m30, m22);
    lemma_swap12(m03, m21, m22, m30);
    lemma_times_determinant3(m23, m00, m01, m02, m20, m21, m22, m30, m31, m32);
    lemma_swap23(m00, m21, m32, m23);
    lemma_swap12(m00, m21, m23, m32);
    lemma_swap23(m00, m22, m31, m23);
    lemma_swap12(m00, m22, m23, m31);
    lemma_swap23(m01, m20, m32, m23);
    lemma_swap12(m01, m20, m23, m32);
    lemma_swap23(m01, m22, m30, m23);
    lemma_swap12(m01, m22, m23, m30);
    lemma_swap23(m02, m20, m31, m23);
    lemma_swap12(m02, m20, m23, m31);
    lemma_swap23(m02, m21, m30, m23);
    lemma_swap12(m02, m21, m23, m30);
    lemma_swap12(m00, m21, m22, m33);
    lemma_swap12(m00, m21, m23, m32);
    lemma_swap12(m00, m22, m23, m31);
    lemma_swap12(m01, m20, m22, m33);
    lemma_swap12(m01, m20, m23, m32);
    lemma_swap12(m01, m22, m23, m30);
    lemma_swap12(m02, m20, m21, m33);
    lemma_swap12(m02, m20, m23, m31);
    lemma_swap12(m02, m21, m23, m30);
    lemma_swap12(m03, m20, m21, m32);
    lemma_swap12(m03, m20, m22, m31);
    lemma_swap12(m03, m21, m22, m30);
}

/// Row 2 paired with the cofactors of row 3.
pub proof fn lemma_row2_with_cofactors3(m00: int, m01: int, m02: int, m03: int, m10: int, m11: int,
    m12: int, m13: int, m20: int, m21: int, m22: int, m23: int, m30: int, m31: int, m32: int,
    m33: int)
    ensures
        m20 * cofactor(matrix4(m00, m01, m02, m03, m10, m11, m12, m13, m20, m21, m22, m23, m30, m31,
            m32, m33), 3, 0) + m21 * cofactor(matrix4(m00, m01, m02, m03, m10, m11, m12, m13, m20,
            m21, m22, m23, m30, m31, m32, m33), 3, 1) + m22 * cofactor(matrix4(m00, m01, m02, m03,
            m10, m11, m12, m13, m20, m21, m22, m23, m30, m31, m32, m33), 3, 2)
            + m23 * cofactor(matrix4(m00, m01, m02, m03, m10, m11, m12, m13, m20, m21, m22, m23,
            m30, m31, m32, m33), 3, 3) == 0,
{
    lemma_cofactors4(m00, m01, m02, m03, m10, m11, m12, m13, m20, m21, m22, m23, m30, m31, m32,
        m33);
    lemma_times_determinant3(m20, m01, m02, m03, m11, m12, m13, m21, m22, m23);
    lemma_mul_unary_negation(m20, m01 * (m12 * m23 - m22 * m13) - m02 * (m11 * m23 - m21 * m13)
        + m03 * (m11 * m22 - m21 * m12));
    lemma_times_determinant3(m21, m00, m02, m03, m10, m12, m13, m20, m22, m23);
    lemma_times_determinant3(m22, m00, m01, m03, m10, m11, m13, m20, m21, m23);
    lemma_mul_unary_negation(m22, m00 * (m11 * m23 - m21 * m13) - m01 * (m10 * m23 - m20 * m13)
        + m03 * (m10 * m21 - m20 * m11));
    lemma_times_determinant3(m23, m00, m01, m02, m10, m11, m12, m20, m21, m22);
    lemma_swap23(m00, m11, m22, m23);
    lemma_swap23(m00, m12, m21, m23);
    lemma_swap23(m00, m13, m21, m22);
    lemma_swap23(m01, m10, m22, m23);
    lemma_swap23(m01, m12, m20, m23);
    lemma_swap23(m01, m13, m20, m22);
    lemma_swap23(m02, m10, m21, m23);
    lemma_swap23(m02, m11, m20, m23);
    lemma_swap23(m02, m13, m20, m21);
    lemma_swap23(m03, m10, m21, m22);
    lemma_swap23(m03, m11, m20, m22);
    lemma_swap23(m03, m12, m20, m21);
}

/// Row 3 paired with the cofactors of row 0.
pub proof fn lemma_row3_with_cofactors0(m00: int, m01: int, m02: int, m03: int, m10: int, m11: int,
    m12: int, m13: int, m20: int, m21: int, m22: int, m23: int, m30: int, m31: int, m32: int,
    m33: int)
    ensures
        m30 * cofactor(matrix4(m00, m01, m02, m03, m10, m11, m12, m13, m20, m21, m22, m23, m30, m31,
            m32, m33), 0, 0) + m31 * cofactor(matrix4(m00, m01, m02, m03, m10, m11, m12, m13, m20,
            m21, m22, m23, m30, m31, m32, m33), 0, 1) + m32 * cofactor(matrix4(m00, m01, m02, m03,
            m10, m11, m12, m13, m20, m21, m22, m23, m30, m31, m32, m33), 0, 2)
            + m33 * cofactor(matrix4(m00, m01, m02, m03, m10, m11, m12, m13, m20, m21, m22, m23,
            m30, m31, m32, m33), 0, 3) == 0,
{
    lemma_cofactors4(m00, m01, m02, m03, m10, m11, m12, m13, m20, m21, m22, m23, m30, m31, m32,
        m33);
    lemma_times_determinant3(m30, m11, m12, m13, m21, m22, m23, m31, m32, m33);
    lemma_swap23(m11, m22, m33, m30);
    lemma_swap12(m11, m22, m30, m33);
    lemma_swap01(m11, m30, m22, m33);
    lemma_swap23(m11, m23, m32, m30);
    lemma_swap12(m11, m23, m30, m32);
    lemma_swap01(m11, m30, m23, m32);
    lemma_swap23(m12, m21, m33, m30);
    lemma_swap12(m12, m21, m30, m33);
    lemma_swap01(m12, m30, m21, m33);
    lemma_swap23(m12, m23, m31, m30);
    lemma_swap12(m12, m23, m30, m31);
    lemma_swap01(m12, m30, m23, m31);
    lemma_swap23(m13, m21, m32, m30);
    lemma_swap12(m13, m21, m30, m32);
    lemma_swap01(m13, m30, m21, m32);
    lemma_swap23(m13, m22, m31, m30);
    lemma_swap12(m13, m22, m30, m31);
    lemma_swap01(m13, m30, m22, m31);
    lemma_times_determinant3(m31, m10, m12, m13, m20, m22, m23, m30, m32, m33);
    lemma_mul_unary_negation(m31, m10 * (m22 * m33 - m32 * m23) - m12 * (m20 * m33 - m30 * m23)
        + m13 * (m20 * m32 - m30 * m22));
    lemma_swap23(m10, m22, m33, m31);
    lemma_swap12(m10, m22, m31, m33);
    lemma_swap01(m10, m31, m22, m33);
    lemma_swap23(m10, m23, m32, m31);
    lemma_swap12(m10, m23, m31, m32);
    lemma_swap01(m10, m31, m23, m32);
    lemma_swap23(m12, m20, m33, m31);
    lemma_swap12(m12, m20, m31, m33);
    lemma_swap01(m12, m31, m20, m33);
    lemma_swap23(m12, m23, m30, m31);
    lemma_swap12(m12, m23, m31, m30);
    lemma_swap01(m12, m31, m23, m30);
    lemma_swap23(m13, m20, m32, m31);
    lemma_swap12(m13, m20, m31, m32);
    lemma_swap01(m13, m31, m20, m32);
    lemma_swap23(m13, m22, m30, m31);
    lemma_swap12(m13, m22, m31, m30);
    lemma_swap01(m13, m31, m22, m30);
    lemma_times_determinant3(m32, m10, m11, m13, m20, m21, m23, m30, m31, m33);
    lemma_swap23(m10, m21, m33, m32);
    lemma_swap12(m10, m21, m32, m33);
    lemma_swap01(m10, m32, m21, m33);
    lemma_swap23(m10, m23, m31, m32);
    lemma_swap12(m10, m23, m32, m31);
    lemma_swap01(m10, m32, m23, m31);
    lemma_swap23(m11, m20, m33, m32);
    lemma_swap12(m11, m20, m32, m33);
    lemma_swap01(m11, m32, m20, m33);
    lemma_swap23(m11, m23, m30, m32);
    lemma_swap12(m11, m23, m32, m30);
    lemma_swap01(m11, m32, m23, m30);
    lemma_swap23(m13, m20, m31, m32);
    lemma_swap12(m13, m20, m32, m31);
    lemma_swap01(m13, m32, m20, m31);
    lemma_swap23(m13, m21, m30, m32);
    lemma_swap12(m13, m21, m32, m30);
    lemma_swap01(m13, m32, m21, m30);
    lemma_times_determinant3(m33, m10, m11, m12, m20, m21, m22, m30, m31, m32);
    lemma_mul_unary_negation(m33, m10 * (m21 * m32 - m31 * m22) - m11 * (m20 * m32 - m30 * m22)
        + m12 * (m20 * m31 - m30 * m21));
    lemma_swap23(m10, m21, m32, m33);
    lemma_swap12(m10, m21, m33, m32);
    lemma_swap01(m10, m33, m21, m32);
    lemma_swap23(m10, m22, m31, m33);
    lemma_swap12(m10, m22, m33, m31);
    lemma_swap01(m10, m33, m22, m31);
    lemma_swap23(m11, m20, m32, m33);
    lemma_swap12(m11, m20, m33, m32);
    lemma_swap01(m11, m33, m20, m32);
    lemma_swap23(m11, m22, m30, m33);
    lemma_swap12(m11, m22, m33, m30);
    lemma_swap01(m11, m33, m22, m30);
    lemma_swap23(m12, m20, m31, m33);
    lemma_swap12(m12, m20, m33, m31);
    lemma_swap01(m12, m33, m20, m31);
    lemma_swap23(m12, m21, m30, m33);
    lemma_swap12(m12, m21, m33, m30);
    lemma_swap01(m12, m33, m21, m30);
    lemma_swap23(m30, m11, m22, m33);
    lemma_swap12(m30, m11, m33, m22);
    lemma_swap01(m30, m33, m11, m22);
    lemma_swap12(m33, m30, m11, m22);
    lemma_swap23(m33, m11, m30, m22);
    lemma_swap23(m30, m11, m23, m32);
    lemma_swap12(m30, m11, m32, m23);
    lemma_swap01(m30, m32, m11, m23);
    lemma_swap12(m32, m30, m11, m23);
    lemma_swap23(m32, m11, m30, m23);
    lemma_swap23(m30, m12, m21, m33);
    lemma_swap12(m30, m12, m33, m21);
    lemma_swap01(m30, m33, m12, m21);
    lemma_swap12(m33, m30, m12, m21);
    lemma_swap23(m33, m12, m30, m21);
    lemma_swap23(m30, m12, m23, m31);
    lemma_swap12(m30, m12, m31, m23);
    lemma_swap01(m30, m31, m12, m23);
    lemma_swap12(m31, m30, m12, m23);
    lemma_swap23(m31, m12, m30, m23);
    lemma_swap23(m30, m13, m21, m32);
    lemma_swap12(m30, m13, m32, m21);
    lemma_swap01(m30, m32, m13, m21);
    lemma_swap12(m32, m30, m13, m21);
    lemma_swap23(m32, m13, m30, m21);
    lemma_swap23(m30, m13, m22, m31);
    lemma_swap12(m30, m13, m31, m22);
    lemma_swap01(m30, m31, m13, m22);
    lemma_swap12(m31, m30, m13, m22);
    lemma_swap23(m31, m13, m30, m22);
    lemma_swap23(m31, m10, m22, m33);
    lemma_swap12(m31, m10, m33, m22);
    lemma_swap01(m31, m33, m10, m22);
    lemma_swap12(m33, m31, m10, m22);
    lemma_swap23(m33, m10, m31, m22);
    lemma_swap23(m31, m10, m23, m32);
    lemma_swap12(m31, m10, m32, m23);
    lemma_swap01(m31, m32, m10, m23);
    lemma_swap12(m32, m31, m10, m23);
    lemma_swap23(m32, m10, m31, m23);
    lemma_swap23(m31, m12, m20, m33);
    lemma_swap12(m31, m12, m33, m20);
    lemma_swap01(m31, m33, m12, m20);
    lemma_swap12(m33, m31, m12, m20);
    lemma_swap23(m33, m12, m31, m20);
    lemma_swap23(m31, m13, m20, m32);
    lemma_swap12(m31, m13, m32, m20);
    lemma_swap01(m31, m32, m13, m20);
    lemma_swap12(m32, m31, m13, m20);
    lemma_swap23(m32, m13, m31, m20);
    lemma_swap23(m32, m10, m21, m33);
    lemma_swap12(m32, m10, m33, m21);
    lemma_swap01(m32, m33, m10, m21);
    lemma_swap12(m33, m32, m10, m21);
    lemma_swap23(m33, m10, m32, m21);
    lemma_swap23(m32, m11, m20, m33);
    lemma_swap12(m32, m11, m33, m20);
    lemma_swap01(m32, m33, m11, m20);
    lemma_swap12(m33, m32, m11, m20);
    lemma_swap23(m33, m11, m32, m20);
}

/// Row 3 paired with the cofactors of row 1.
pub proof fn lemma_row3_with_cofactors1(m00: int, m01: int, m02: int, m03: int, m10: int, m11: int,
    m12: int, m13: int, m20: int, m21: int, m22: int, m23: int, m30: int, m31: int, m32: int,
    m33: int)
    ensures
        m30 * cofactor(matrix4(m00, m01, m02, m03, m10, m11, m12, m13, m20, m21, m22, m23, m30, m31,
            m32, m33), 1, 0) + m31 * cofactor(matrix4(m00, m01, m02, m03, m10, m11, m12, m13, m20,
            m21, m22, m23, m30, m31, m32, m33), 1, 1) + m32 * cofactor(matrix4(m00, m01, m02, m03,
            m10, m11, m12, m13, m20, m21, m22, m23, m30, m31, m32, m33), 1, 2)
            + m33 * cofactor(matrix4(m00, m01, m02, m03, m10, m11, m12, m13, m20, m21, m22, m23,
            m30, m31, m32, m33), 1, 3) == 0,
{
    lemma_cofactors4(m00, m01, m02, m03, m10, m11, m12, m13, m20, m21, m22, m23, m30, m31, m32,
        m33);
    lemma_times_determinant3(m30, m01, m02, m03, m21, m22, m23, m31, m32, m33);
    lemma_mul_unary_negation(m30, m01 * (m22 * m33 - m32 * m23) - m02 * (m21 * m33 - m31 * m23)
        + m03 * (m21 * m32 - m31 * m22));
    lemma_swap23(m01, m22, m33, m30);
    lemma_swap12(m01, m22, m30, m33);
    lemma_swap23(m01, m23, m32, m30);
    lemma_swap12(m01, m23, m30, m32);
    lemma_swap23(m02, m21, m33, m30);
    lemma_swap12(m02, m21, m30, m33);
    lemma_swap23(m02, m23, m31, m30);
    lemma_swap12(m02, m23, m30, m31);
    lemma_swap23(m03, m21, m32, m30);
    lemma_swap12(m03, m21, m30, m32);
    lemma_swap23(m03, m22, m31, m30);
    lemma_swap12(m03, m22, m30, m31);
    lemma_times_determinant3(m31, m00, m02, m03, m20, m22, m23, m30, m32, m33);
    lemma_swap23(m00, m22, m33, m31);
    lemma_swap12(m00, m22, m31, m33);
    lemma_swap23(m00, m23, m32, m31);
    lemma_swap12(m00, m23, m31, m32);
    lemma_swap23(m02, m20, m33, m31);
    lemma_swap12(m02, m20, m31, m33);
    lemma_swap23(m02, m23, m30, m31);
    lemma_swap12(m02, m23, m31, m30);
    lemma_swap23(m03, m20, m32, m31);
    lemma_swap12(m03, m20, m31, m32);
    lemma_swap23(m03, m22, m30, m31);
    lemma_swap12(m03, m22, m31, m30);
    lemma_times_determinant3(m32, m00, m01, m03, m20, m21, m23, m30, m31, m33);
    lemma_mul_unary_negation(m32, m00 * (m21 * m33 - m31 * m23) - m01 * (m20 * m33 - m30 * m23)
        + m03 * (m20 * m31 - m30 * m21));
    lemma_swap23(m00, m21, m33, m32);
    lemma_swap12(m00, m21, m32, m33);
    lemma_swap23(m00, m23, m31, m32);
    lemma_swap12(m00, m23, m32, m31);
    lemma_swap23(m01, m20, m33, m32);
    lemma_swap12(m01, m20, m32, m33);
    lemma_swap23(m01, m23, m30, m32);
    lemma_swap12(m01, m23, m32, m30);
    lemma_swap23(m03, m20, m31, m32);
    lemma_swap12(m03, m20, m32, m31);
    lemma_swap23(m03, m21, m30, m32);
    lemma_swap12(m03, m21, m32, m30);
    lemma_times_determinant3(m33, m00, m01, m02, m20, m21, m22, m30, m31, m32);
    lemma_swap23(m00, m21, m32, m33);
    lemma_swap12(m00, m21, m33, m32);
    lemma_swap23(m00, m22, m31, m33);
    lemma_swap12(m00, m22, m33, m31);
    lemma_swap23(m01, m20, m32, m33);
    lemma_swap12(m01, m20, m33, m32);
    lemma_swap23(m01, m22, m30, m33);
    lemma_swap12(m01, m22, m33, m30);
    lemma_swap23(m02, m20, m31, m33);
    lemma_swap12(m02, m20, m33, m31);
    lemma_swap23(m02, m21, m30, m33);
    lemma_swap12(m02, m21, m33, m30);
    lemma_swap23(m00, m31, m22, m33);
    lemma_swap12(m00, m31, m33, m22);
    lemma_swap23(m00, m33, m31, m22);
    lemma_swap23(m00, m31, m23, m32);
    lemma_swap12(m00, m31, m32, m23);
    lemma_swap23(m00, m32, m31, m23);
    lemma_swap23(m00, m32, m21, m33);
    lemma_swap12(m00, m32, m33, m21);
    lemma_swap23(m00, m33, m32, m21);
    lemma_swap23(m01, m30, m22, m33);
    lemma_swap12(m01, m30, m33, m22);
    lemma_swap23(m01, m33, m30, m22);
    lemma_swap23(m01, m30, m23, m32);
    lemma_swap12(m01, m30, m32, m23);
    lemma_swap23(m01, m32, m30, m23);
    lemma_swap23(m01, m32, m20, m33);
    lemma_swap12(m01, m32, m33, m20);
    lemma_swap23(m01, m33, m32, m20);
    lemma_swap23(m02, m30, m21, m33);
    lemma_swap12(m02, m30, m33, m21);
    lemma_swap23(m02, m33, m30, m21);
    lemma_swap23(m02, m30, m23, m31);
    lemma_swap12(m02, m30, m31, m23);
    lemma_swap23(m02, m31, m30, m23);
    lemma_swap23(m02, m31, m20, m33);
    lemma_swap12(m02, m31, m33, m20);
    lemma_swap23(m02, m33, m31, m20);
    lemma_swap23(m03, m30, m21, m32);
    lemma_swap12(m03, m30, m32, m21);
    lemma_swap23(m03, m32, m30, m21);
    lemma_swap23(m03, m30, m22, m31);
    lemma_swap12(m03, m30, m31, m22);
    lemma_swap23(m03, m31, m30, m22);
    lemma_swap23(m03, m31, m20, m32);
    lemma_swap12(m03, m31, m32, m20);
    lemma_swap23(m03, m32, m31, m20);
}

/// Row 3 paired with the cofactors of row 2.
pub proof fn lemma_row3_with_cofactors2(m00: int, m01: int, m02: int, m03: int, m10: int, m11: int,
    m12: int, m13: int, m20: int, m21: int, m22: int, m23: int, m30: int, m31: int, m32: int,
    m33: int)
    ensures
        m30 * cofactor(matrix4(m00, m01, m02, m03, m10, m11, m12, m13, m20, m21, m22, m23, m30, m31,
            m32, m33), 2, 0) + m31 * cofactor(matrix4(m00, m01, m02, m03, m10, m11, m12, m13, m20,
            m21, m22, m23, m30, m31, m32, m33), 2, 1) + m32 * cofactor(matrix4(m00, m01, m02, m03,
            m10, m11, m12, m13, m20, m21, m22, m23, m30, m31, m32, m33), 2, 2)
            + m33 * cofactor(matrix4(m00, m01, m02, m03, m10, m11, m12, m13, m20, m21, m22, m23,
            m30, m31, m32, m33), 2, 3) == 0,
{
    lemma_cofactors4(m00, m01, m02, m03, m10, m11, m12, m13, m20, m21, m22, m23, m30, m31, m32,
        m33);
    lemma_times_determinant3(m30, m01, m02, m03, m11, m12, m13, m31, m32, m33);
    lemma_swap23(m01, m12, m33, m30);
    lemma_swap23(m01, m13, m32, m30);
    lemma_swap23(m02, m11, m33, m30);
    lemma_swap23(m02, m13, m31, m30);
    lemma_swap23(m03, m11, m32, m30);
    lemma_swap23(m03, m12, m31, m30);
    lemma_times_determinant3(m31, m00, m02, m03, m10, m12, m13, m30, m32, m33);
    lemma_mul_unary_negation(m31, m00 * (m12 * m33 - m32 * m13) - m02 * (m10 * m33 - m30 * m13)
        + m03 * (m10 * m32 - m30 * m12));
    lemma_swap23(m00, m12, m33, m31);
    lemma_swap23(m00, m13, m32, m31);
    lemma_swap23(m02, m10, m33, m31);
    lemma_swap23(m02, m13, m30, m31);
    lemma_swap23(m03, m10, m32, m31);
    lemma_swap23(m03, m12, m30, m31);
    lemma_times_determinant3(m32, m00, m01, m03, m10, m11, m13, m30, m31, m33);
    lemma_swap23(m00, m11, m33, m32);
    lemma_swap23(m00, m13, m31, m32);
    lemma_swap23(m01, m10, m33, m32);
    lemma_swap23(m01, m13, m30, m32);
    lemma_swap23(m03, m10, m31, m32);
    lemma_swap23(m03, m11, m30, m32);
    lemma_times_determinant3(m33, m00, m01, m02, m10, m11, m12, m30, m31, m32);
    lemma_mul_unary_negation(m33, m00 * (m11 * m32 - m31 * m12) - m01 * (m10 * m32 - m30 * m12)
        + m02 * (m10 * m31 - m30 * m11));
    lemma_swap23(m00, m11, m32, m33);
    lemma_swap23(m00, m12, m31, m33);
    lemma_swap23(m01, m10, m32, m33);
    lemma_swap23(m01, m12, m30, m33);
    lemma_swap23(m02, m10, m31, m33);
    lemma_swap23(m02, m11, m30, m33);
    lemma_swap23(m00, m11, m32, m33);
    lemma_swap23(m00, m12, m31, m33);
    lemma_swap23(m00, m13, m31, m32);
    lemma_swap23(m01, m10, m32, m33);
    lemma_swap23(m01, m12, m30, m33);
    lemma_swap23(m01, m13, m30, m32);
    lemma_swap23(m02, m10, m31, m33);
    lemma_swap23(m02, m11, m30, m33);
    lemma_swap23(m02, m13, m30, m31);
    lemma_swap23(m03, m10, m31, m32);
    lemma_swap23(m03, m11, m30, m32);
    lemma_swap23(m03, m12, m30, m31);
}

/// A 4×4 matrix times its adjugate is its determinant times the identity.
pub proof fn lemma_product_with_adjugate(m: Seq<Seq<int>>)
    requires
        is_square(m, 4),
    ensures
        product(m, adjugate(m)) == scaled(determinant(m), identity(4)),
{
    let m00 = m[0][0];
    let m01 = m[0][1];
    let m02 = m[0][2];
    let m03 = m[0][3];
    let m10 = m[1][0];
    let m11 = m[1][1];
    let m12 = m[1][2];
    let m13 = m[1][3];
    let m20 = m[2][0];
    let m21 = m[2][1];
    let m22 = m[2][2];
    let m23 = m[2][3];
    let m30 = m[3][0];
    let m31 = m[3][1];
    let m32 = m[3][2];
    let m33 = m[3][3];
    assert(m =~~= matrix4(m00, m01, m02, m03, m10, m11, m12, m13, m20, m21, m22, m23, m30, m31, m32,
        m33));
    assert(adjugate(m) =~~= matrix4(cofactor(m, 0, 0), cofactor(m, 1, 0), cofactor(m, 2, 0),
        cofactor(m, 3, 0), cofactor(m, 0, 1), cofactor(m, 1, 1), cofactor(m, 2, 1), cofactor(m, 3,
        1), cofactor(m, 0, 2), cofactor(m, 1, 2), cofactor(m, 2, 2), cofactor(m, 3, 2), cofactor(m,
        0, 3), cofactor(m, 1, 3), cofactor(m, 2, 3), cofactor(m, 3, 3)));
    lemma_product4(m00, m01, m02, m03, m10, m11, m12, m13, m20, m21, m22, m23, m30, m31, m32, m33,
        cofactor(m, 0, 0), cofactor(m, 1, 0), cofactor(m, 2, 0), cofactor(m, 3, 0), cofactor(m, 0,
        1), cofactor(m, 1, 1), cofactor(m, 2, 1), cofactor(m, 3, 1), cofactor(m, 0, 2), cofactor(m,
        1, 2), cofactor(m, 2, 2), cofactor(m, 3, 2), cofactor(m, 0, 3), cofactor(m, 1, 3),
        cofactor(m, 2, 3), cofactor(m, 3, 3));
    lemma_row0_expansion4(m00, m01, m02, m03, m10, m11, m12, m13, m20, m21, m22, m23, m30, m31, m32,
        m33);
    lemma_row0_with_cofactors1(m00, m01, m02, m03, m10, m11, m12, m13, m20, m21, m22, m23, m30, m31,
        m32, m33);
    lemma_row0_with_cofactors2(m00, m01, m02, m03, m10, m11, m12, m13, m20, m21, m22, m23, m30, m31,
        m32, m33);
    lemma_row0_with_cofactors3(m00, m01, m02, m03, m10, m11, m12, m13, m20, m21, m22, m23, m30, m31,
        m32, m33);
    lemma_row1_expansion4(m00, m01, m02, m03, m10, m11, m12, m13, m20, m21, m22, m23, m30, m31, m32,
        m33);
    lemma_row1_with_cofactors0(m00, m01, m02, m03, m10, m11, m12, m13, m20, m21, m22, m23, m30, m31,
        m32, m33);
    lemma_row1_with_cofactors2(m00, m01, m02, m03, m10, m11, m12, m13, m20, m21, m22, m23, m30, m31,
        m32, m33);
    lemma_row1_with_cofactors3(m00, m01, m02, m03, m10, m11, m12, m13, m20, m21, m22, m23, m30, m31,
        m32, m33);
    lemma_row2_expansion4(m00, m01, m02, m03, m10, m11, m12, m13, m20, m21, m22, m23, m30, m31, m32,
        m33);
    lemma_row2_with_cofactors0(m00, m01, m02, m03, m10, m11, m12, m13, m20, m21, m22, m23, m30, m31,
        m32, m33);
    lemma_row2_with_cofactors1(m00, m01, m02, m03, m10, m11, m12, m13, m20, m21, m22, m23, m30, m31,
        m32, m33);
    lemma_row2_with_cofactors3(m00, m01, m02, m03, m10, m11, m12, m13, m20, m21, m22, m23, m30, m31,
        m32, m33);
    lemma_row3_expansion4(m00, m01, m02, m03, m10, m11, m12, m13, m20, m21, m22, m23, m30, m31, m32,
        m33);
    lemma_row3_with_cofactors0(m00, m01, m02, m03, m10, m11, m12, m13, m20, m21, m22, m23, m30, m31,
        m32, m33);
    lemma_row3_with_cofactors1(m00, m01, m02, m03, m10, m11, m12, m13, m20, m21, m22, m23, m30, m31,
        m32, m33);
    lemma_row3_with_cofactors2(m00, m01, m02, m03, m10, m11, m12, m13, m20, m21, m22, m23, m30, m31,
        m32, m33);
    lemma_determinant_is_cofactor_expansion(m, 4);
    let d = determinant(m);
    assert(d * 1 == d && d * 0 == 0);
    assert(product(m, adjugate(m)) =~~= scaled(d, identity(4)));
}

} // verus!
