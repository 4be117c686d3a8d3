//! The mathematical model of square matrices over the integers: a matrix is a
//! `Seq<Seq<int>>` of rows, and every operation of the library is stated over it.
use vstd::prelude::*;

verus! {

/// `m` has `n` rows of `n` entries each.
pub open spec fn is_square(m: Seq<Seq<int>>, n: nat) -> bool {
    &&& m.len() == n
    &&& forall|r: int| 0 <= r < n ==> #[trigger] m[r].len() == n
}

/// Every entry of `m` lies in `[-b, b]`.
pub open spec fn entries_within(m: Seq<Seq<int>>, b: int) -> bool {
    forall|r: int, c: int|
        0 <= r < m.len() && 0 <= c < m.len() ==> -b <= #[trigger] m[r][c] <= b
}

/// The magnitude of `x`.
pub open spec fn abs(x: int) -> int {
    if x < 0 {
        -x
    } else {
        x
    }
}

/// The `n`×`n` matrix of zeros.
pub open spec fn zero(n: nat) -> Seq<Seq<int>> {
    Seq::new(n, |r: int| Seq::new(n, |c: int| 0int))
}

/// The `n`×`n` identity matrix.
pub open spec fn identity(n: nat) -> Seq<Seq<int>> {
    Seq::new(n, |r: int| Seq::new(n, |c: int| if r == c { 1int } else { 0int }))
}

/// Entry `(row, col)` of the result is entry `(col, row)` of `m`.
pub open spec fn transposed(m: Seq<Seq<int>>) -> Seq<Seq<int>> {
    Seq::new(m.len(), |r: int| Seq::new(m.len(), |c: int| m[c][r]))
}

/// `k * m`, entry by entry.
pub open spec fn scaled(k: int, m: Seq<Seq<int>>) -> Seq<Seq<int>> {
    Seq::new(m.len(), |r: int| Seq::new(m.len(), |c: int| k * m[r][c]))
}

/// `a[row][0] * b[0][col] + ... + a[row][k-1] * b[k-1][col]`.
pub open spec fn dot(a: Seq<Seq<int>>, b: Seq<Seq<int>>, row: int, col: int, k: int) -> int
    decreases k,
{
    if k <= 0 {
        0
    } else {
        dot(a, b, row, col, k - 1) + a[row][k - 1] * b[k - 1][col]
    }
}

/// The same sum over the magnitudes of the factors: a bound on every partial sum of `dot`.
pub open spec fn magnitude_dot(a: Seq<Seq<int>>, b: Seq<Seq<int>>, row: int, col: int,
    k: int) -> int
    decreases k,
{
    if k <= 0 {
        0
    } else {
        magnitude_dot(a, b, row, col, k - 1) + abs(a[row][k - 1]) * abs(b[k - 1][col])
    }
}

/// The matrix product `a * b`.
pub open spec fn product(a: Seq<Seq<int>>, b: Seq<Seq<int>>) -> Seq<Seq<int>> {
    Seq::new(a.len(), |r: int| Seq::new(a.len(), |c: int| dot(a, b, r, c, a.len() as int)))
}

/// Every entry of `a * b`, computed left to right, stays within `i64`.
pub open spec fn product_fits(a: Seq<Seq<int>>, b: Seq<Seq<int>>) -> bool {
    forall|r: int, c: int|
        0 <= r < a.len() && 0 <= c < a.len() ==> #[trigger] magnitude_dot(a, b, r, c,
            a.len() as int)
            <= i64::MAX
}

/// The index in the full matrix of position `i` of the matrix with index `skipped` removed.
pub open spec fn skip(i: int, skipped: int) -> int {
    if i < skipped {
        i
    } else {
        i + 1
    }
}

/// `m` with row `row` and column `col` deleted, the rest kept in order.
pub open spec fn sub_matrix(m: Seq<Seq<int>>, row: int, col: int) -> Seq<Seq<int>> {
    Seq::new(
        (m.len() - 1) as nat,
        |i: int| Seq::new((m.len() - 1) as nat, |j: int| m[skip(i, row)][skip(j, col)]),
    )
}

/// `x` negated when `i` is odd.
pub open spec fn signed(i: int, x: int) -> int {
    if i % 2 == 0 {
        x
    } else {
        -x
    }
}

/// The determinant: the closed form for 2×2, and for larger matrices the cofactor
/// expansion along row 0.
pub open spec fn determinant(m: Seq<Seq<int>>) -> int
    decreases m.len(), m.len() + 1,
{
    if m.len() <= 2 {
        m[0][0] * m[1][1] - m[1][0] * m[0][1]
    } else {
        cofactor_expansion(m, m.len() as int)
    }
}

/// `m[0][0] * cofactor(m, 0, 0) + ... + m[0][k-1] * cofactor(m, 0, k-1)`.
pub open spec fn cofactor_expansion(m: Seq<Seq<int>>, k: int) -> int
    decreases m.len(), k,
{
    if k <= 0 || k > m.len() {
        0
    } else {
        cofactor_expansion(m, k - 1) + m[0][k - 1] * cofactor(m, 0, k - 1)
    }
}

/// The minor at `(row, col)` with the checkerboard sign of `row + col`.
pub open spec fn cofactor(m: Seq<Seq<int>>, row: int, col: int) -> int
    decreases m.len(), 0int,
{
    if m.len() == 0 {
        0
    } else {
        signed(row + col, determinant(sub_matrix(m, row, col)))
    }
}

/// The determinant of `m` with row `row` and column `col` deleted.
pub open spec fn minor(m: Seq<Seq<int>>, row: int, col: int) -> int {
    determinant(sub_matrix(m, row, col))
}

/// The adjugate: entry `(col, row)` is the cofactor at `(row, col)`.
/// `adjugate(m) / determinant(m)` is the inverse of `m`.
pub open spec fn adjugate(m: Seq<Seq<int>>) -> Seq<Seq<int>> {
    Seq::new(m.len(), |r: int| Seq::new(m.len(), |c: int| cofactor(m, c, r)))
}

pub proof fn lemma_abs_mul(x: int, y: int)
    ensures
        abs(x * y) == abs(x) * abs(y),
{
    assert(abs(x * y) == abs(x) * abs(y)) by (nonlinear_arith);
}

pub proof fn lemma_mul_within(x: int, y: int, bx: int, by_: int)
    requires
        abs(x) <= bx,
        abs(y) <= by_,
    ensures
        abs(x * y) <= bx * by_,
        -(bx * by_) <= x * y <= bx * by_,
{
    lemma_abs_mul(x, y);
    assert(abs(x) * abs(y) <= bx * by_) by (nonlinear_arith)
        requires
            0 <= abs(x) <= bx,
            0 <= abs(y) <= by_,
    ;
}

/// Every partial sum of `dot` is bounded by the corresponding sum of magnitudes,
/// which grows with `k`.
pub proof fn lemma_dot_bounded(a: Seq<Seq<int>>, b: Seq<Seq<int>>, row: int, col: int, k: int)
    ensures
        abs(dot(a, b, row, col, k)) <= magnitude_dot(a, b, row, col, k),
        forall|j: int| 0 <= j <= k ==> #[trigger] magnitude_dot(a, b, row, col, j)
            <= magnitude_dot(a, b, row, col, k),
    decreases k,
{
    if k > 0 {
        lemma_dot_bounded(a, b, row, col, k - 1);
        lemma_abs_mul(a[row][k - 1], b[k - 1][col]);
        assert(abs(a[row][k - 1]) * abs(b[k - 1][col]) >= 0) by (nonlinear_arith);
    }
}

/// Deleting a row and a column of an `n`×`n` matrix leaves an `(n-1)`×`(n-1)` matrix
/// whose entries are entries of `m`.
pub proof fn lemma_sub_matrix_shape(m: Seq<Seq<int>>, n: nat, row: int, col: int, b: int)
    requires
        is_square(m, n),
        n >= 1,
        0 <= row < n,
        0 <= col < n,
    ensures
        is_square(sub_matrix(m, row, col), (n - 1) as nat),
        entries_within(m, b) ==> entries_within(sub_matrix(m, row, col), b),
{
    let s = sub_matrix(m, row, col);
    assert forall|i: int, j: int| 0 <= i < n - 1 && 0 <= j < n - 1 implies s[i][j] == m[skip(i,
        row)][skip(j, col)]
        && 0 <= skip(i, row) < n && 0 <= skip(j, col) < n by {}
}

pub proof fn lemma_determinant2_within(m: Seq<Seq<int>>, b: int)
    requires
        is_square(m, 2),
        entries_within(m, b),
    ensures
        abs(m[0][0] * m[1][1]) <= b * b,
        abs(m[1][0] * m[0][1]) <= b * b,
        abs(determinant(m)) <= 2 * b * b,
{
    assert(abs(m[0][0]) <= b && abs(m[1][1]) <= b && abs(m[1][0]) <= b && abs(m[0][1]) <= b);
    lemma_mul_within(m[0][0], m[1][1], b, b);
    lemma_mul_within(m[1][0], m[0][1], b, b);
    assert(2 * b * b == b * b + b * b) by (nonlinear_arith);
}

/// With row 0 within `[-b, b]` and each of the first `k` cofactors along it within
/// `[-t, t]`, the partial expansion is within `[-k*b*t, k*b*t]`.
pub proof fn lemma_expansion_within(m: Seq<Seq<int>>, k: int, b: int, t: int)
    requires
        m.len() >= 1,
        m[0].len() == m.len(),
        0 <= k <= m.len(),
        forall|c: int| 0 <= c < k ==> -b <= #[trigger] m[0][c] <= b,
        forall|c: int| 0 <= c < k ==> abs(#[trigger] cofactor(m, 0, c)) <= t,
    ensures
        abs(cofactor_expansion(m, k)) <= k * (b * t),
        forall|c: int| 0 <= c < k ==> abs(#[trigger] (m[0][c] * cofactor(m, 0, c))) <= b * t,
    decreases k,
{
    assert forall|c: int| 0 <= c < k implies abs(#[trigger] (m[0][c] * cofactor(m, 0,
        c))) <= b * t by {
        lemma_mul_within(m[0][c], cofactor(m, 0, c), b, t);
    }
    if k > 0 {
        lemma_expansion_within(m, k - 1, b, t);
        assert(k * (b * t) == (k - 1) * (b * t) + b * t) by (nonlinear_arith);
        assert(cofactor_expansion(m, k) == cofactor_expansion(m, k - 1) + m[0][k - 1] * cofactor(m,
            0, k - 1));
    } else {
        assert(k * (b * t) == 0) by (nonlinear_arith) requires k == 0;
    }
}

pub proof fn lemma_determinant3_within(m: Seq<Seq<int>>, b: int)
    requires
        is_square(m, 3),
        entries_within(m, b),
    ensures
        abs(determinant(m)) <= 3 * (b * (2 * b * b)),
{
    assert forall|c: int| 0 <= c < 3 implies abs(#[trigger] cofactor(m, 0, c)) <= 2 * b * b by {
        lemma_sub_matrix_shape(m, 3, 0, c, b);
        lemma_determinant2_within(sub_matrix(m, 0, c), b);
    }
    assert(m[0].len() == 3);
    lemma_expansion_within(m, 3, b, 2 * b * b);
}

/// A 4-term `dot` written out.
pub proof fn lemma_dot4(a: Seq<Seq<int>>, b: Seq<Seq<int>>, row: int, col: int)
    ensures
        dot(a, b, row, col, 4) == a[row][0] * b[0][col] + a[row][1] * b[1][col]
            + a[row][2] * b[2][col]
            + a[row][3] * b[3][col],
{
    assert(dot(a, b, row, col, 0) == 0);
    assert(dot(a, b, row, col, 1) == a[row][0] * b[0][col]);
    assert(dot(a, b, row, col, 2) == dot(a, b, row, col, 1) + a[row][1] * b[1][col]);
    assert(dot(a, b, row, col, 3) == dot(a, b, row, col, 2) + a[row][2] * b[2][col]);
}

/// The 4×4 matrix with the given entries, row by row.
pub open spec fn matrix4(
    a00: int, a01: int, a02: int, a03: int, a10: int, a11: int, a12: int, a13: int, a20: int,
        a21: int, a22: int, a23: int, a30: int, a31: int, a32: int, a33: int,
) -> Seq<Seq<int>> {
    seq![seq![a00, a01, a02, a03], seq![a10, a11, a12, a13], seq![a20, a21, a22, a23], seq![a30,
        a31, a32, a33]]
}

/// The product of two 4×4 matrices, every entry written out.
pub proof fn lemma_product4(
    a00: int, a01: int, a02: int, a03: int, a10: int, a11: int, a12: int, a13: int, a20: int,
        a21: int, a22: int, a23: int, a30: int, a31: int, a32: int, a33: int,
    b00: int, b01: int, b02: int, b03: int, b10: int, b11: int, b12: int, b13: int, b20: int,
        b21: int, b22: int, b23: int, b30: int, b31: int, b32: int, b33: int,
)
    ensures
        product(matrix4(a00, a01, a02, a03, a10, a11, a12, a13, a20, a21, a22, a23, a30, a31, a32,
            a33), matrix4(b00, b01, b02, b03, b10, b11, b12, b13, b20, b21, b22, b23, b30, b31, b32,
            b33)) == matrix4(
            a00 * b00 + a01 * b10 + a02 * b20 + a03 * b30,
            a00 * b01 + a01 * b11 + a02 * b21 + a03 * b31,
            a00 * b02 + a01 * b12 + a02 * b22 + a03 * b32,
            a00 * b03 + a01 * b13 + a02 * b23 + a03 * b33,
            a10 * b00 + a11 * b10 + a12 * b20 + a13 * b30,
            a10 * b01 + a11 * b11 + a12 * b21 + a13 * b31,
            a10 * b02 + a11 * b12 + a12 * b22 + a13 * b32,
            a10 * b03 + a11 * b13 + a12 * b23 + a13 * b33,
            a20 * b00 + a21 * b10 + a22 * b20 + a23 * b30,
            a20 * b01 + a21 * b11 + a22 * b21 + a23 * b31,
            a20 * b02 + a21 * b12 + a22 * b22 + a23 * b32,
            a20 * b03 + a21 * b13 + a22 * b23 + a23 * b33,
            a30 * b00 + a31 * b10 + a32 * b20 + a33 * b30,
            a30 * b01 + a31 * b11 + a32 * b21 + a33 * b31,
            a30 * b02 + a31 * b12 + a32 * b22 + a33 * b32,
            a30 * b03 + a31 * b13 + a32 * b23 + a33 * b33,
        ),
{
    let a = matrix4(a00, a01, a02, a03, a10, a11, a12, a13, a20, a21, a22, a23, a30, a31, a32, a33);
    let b = matrix4(b00, b01, b02, b03, b10, b11, b12, b13, b20, b21, b22, b23, b30, b31, b32, b33);
    assert forall|r: int, c: int| 0 <= r < 4 && 0 <= c < 4 implies #[trigger] product(a, b)[r][c]
        == a[r][0]
        * b[0][c] + a[r][1] * b[1][c] + a[r][2] * b[2][c] + a[r][3] * b[3][c] by {
        lemma_dot4(a, b, r, c);
    }
    assert(product(a, b) =~~= matrix4(
        a00 * b00 + a01 * b10 + a02 * b20 + a03 * b30,
        a00 * b01 + a01 * b11 + a02 * b21 + a03 * b31,
        a00 * b02 + a01 * b12 + a02 * b22 + a03 * b32,
        a00 * b03 + a01 * b13 + a02 * b23 + a03 * b33,
        a10 * b00 + a11 * b10 + a12 * b20 + a13 * b30,
        a10 * b01 + a11 * b11 + a12 * b21 + a13 * b31,
        a10 * b02 + a11 * b12 + a12 * b22 + a13 * b32,
        a10 * b03 + a11 * b13 + a12 * b23 + a13 * b33,
        a20 * b00 + a21 * b10 + a22 * b20 + a23 * b30,
        a20 * b01 + a21 * b11 + a22 * b21 + a23 * b31,
        a20 * b02 + a21 * b12 + a22 * b22 + a23 * b32,
        a20 * b03 + a21 * b13 + a22 * b23 + a23 * b33,
        a30 * b00 + a31 * b10 + a32 * b20 + a33 * b30,
        a30 * b01 + a31 * b11 + a32 * b21 + a33 * b31,
        a30 * b02 + a31 * b12 + a32 * b22 + a33 * b32,
        a30 * b03 + a31 * b13 + a32 * b23 + a33 * b33,
    ));
}

/// The 3×3 matrix with the given entries, row by row.
pub open spec fn matrix3(e00: int, e01: int, e02: int, e10: int, e11: int, e12: int, e20: int,
    e21: int, e22: int) -> Seq<Seq<int>> {
    seq![seq![e00, e01, e02], seq![e10, e11, e12], seq![e20, e21, e22]]
}

/// The determinant of a 3×3 matrix, written out.
pub proof fn lemma_determinant3(e00: int, e01: int, e02: int, e10: int, e11: int, e12: int,
    e20: int, e21: int, e22: int)
    ensures
        determinant(matrix3(e00, e01, e02, e10, e11, e12, e20, e21, e22)) == e00 * (e11 * e22
            - e21 * e12) - e01 * (e10 * e22 - e20 * e12) + e02 * (e10 * e21 - e20 * e11),
{
    let m = matrix3(e00, e01, e02, e10, e11, e12, e20, e21, e22);
    assert(sub_matrix(m, 0, 0) =~~= seq![seq![e11, e12], seq![e21, e22]]);
    assert(sub_matrix(m, 0, 1) =~~= seq![seq![e10, e12], seq![e20, e22]]);
    assert(sub_matrix(m, 0, 2) =~~= seq![seq![e10, e11], seq![e20, e21]]);
    assert(cofactor_expansion(m, 0) == 0);
    assert(cofactor_expansion(m, 1) == e00 * cofactor(m, 0, 0));
    assert(cofactor_expansion(m, 2) == cofactor_expansion(m, 1) + e01 * cofactor(m, 0, 1));
    assert(cofactor_expansion(m, 3) == cofactor_expansion(m, 2) + e02 * cofactor(m, 0, 2));
    assert(e01 * -(e10 * e22 - e20 * e12) == -(e01 * (e10 * e22 - e20 * e12))) by (nonlinear_arith);
}

/// Every cofactor of a 4×4 matrix, written out as a 3×3 determinant of its entries.
pub proof fn lemma_cofactors4(m00: int, m01: int, m02: int, m03: int, m10: int, m11: int, m12: int,
    m13: int, m20: int, m21: int, m22: int, m23: int, m30: int, m31: int, m32: int, m33: int)
    ensures
        cofactor(matrix4(m00, m01, m02, m03, m10, m11, m12, m13, m20, m21, m22, m23, m30, m31, m32,
            m33), 0, 0) == signed(0, m11 * (m22 * m33 - m32 * m23) - m12 * (m21 * m33 - m31 * m23)
            + m13 * (m21 * m32 - m31 * m22)),
        cofactor(matrix4(m00, m01, m02, m03, m10, m11, m12, m13, m20, m21, m22, m23, m30, m31, m32,
            m33), 0, 1) == signed(1, m10 * (m22 * m33 - m32 * m23) - m12 * (m20 * m33 - m30 * m23)
            + m13 * (m20 * m32 - m30 * m22)),
        cofactor(matrix4(m00, m01, m02, m03, m10, m11, m12, m13, m20, m21, m22, m23, m30, m31, m32,
            m33), 0, 2) == signed(2, m10 * (m21 * m33 - m31 * m23) - m11 * (m20 * m33 - m30 * m23)
            + m13 * (m20 * m31 - m30 * m21)),
        cofactor(matrix4(m00, m01, m02, m03, m10, m11, m12, m13, m20, m21, m22, m23, m30, m31, m32,
            m33), 0, 3) == signed(3, m10 * (m21 * m32 - m31 * m22) - m11 * (m20 * m32 - m30 * m22)
            + m12 * (m20 * m31 - m30 * m21)),
        cofactor(matrix4(m00, m01, m02, m03, m10, m11, m12, m13, m20, m21, m22, m23, m30, m31, m32,
            m33), 1, 0) == signed(1, m01 * (m22 * m33 - m32 * m23) - m02 * (m21 * m33 - m31 * m23)
            + m03 * (m21 * m32 - m31 * m22)),
        cofactor(matrix4(m00, m01, m02, m03, m10, m11, m12, m13, m20, m21, m22, m23, m30, m31, m32,
            m33), 1, 1) == signed(2, m00 * (m22 * m33 - m32 * m23) - m02 * (m20 * m33 - m30 * m23)
            + m03 * (m20 * m32 - m30 * m22)),
        cofactor(matrix4(m00, m01, m02, m03, m10, m11, m12, m13, m20, m21, m22, m23, m30, m31, m32,
            m33), 1, 2) == signed(3, m00 * (m21 * m33 - m31 * m23) - m01 * (m20 * m33 - m30 * m23)
            + m03 * (m20 * m31 - m30 * m21)),
        cofactor(matrix4(m00, m01, m02, m03, m10, m11, m12, m13, m20, m21, m22, m23, m30, m31, m32,
            m33), 1, 3) == signed(4, m00 * (m21 * m32 - m31 * m22) - m01 * (m20 * m32 - m30 * m22)
            + m02 * (m20 * m31 - m30 * m21)),
        cofactor(matrix4(m00, m01, m02, m03, m10, m11, m12, m13, m20, m21, m22, m23, m30, m31, m32,
            m33), 2, 0) == signed(2, m01 * (m12 * m33 - m32 * m13) - m02 * (m11 * m33 - m31 * m13)
            + m03 * (m11 * m32 - m31 * m12)),
        cofactor(matrix4(m00, m01, m02, m03, m10, m11, m12, m13, m20, m21, m22, m23, m30, m31, m32,
            m33), 2, 1) == signed(3, m00 * (m12 * m33 - m32 * m13) - m02 * (m10 * m33 - m30 * m13)
            + m03 * (m10 * m32 - m30 * m12)),
        cofactor(matrix4(m00, m01, m02, m03, m10, m11, m12, m13, m20, m21, m22, m23, m30, m31, m32,
            m33), 2, 2) == signed(4, m00 * (m11 * m33 - m31 * m13) - m01 * (m10 * m33 - m30 * m13)
            + m03 * (m10 * m31 - m30 * m11)),
        cofactor(matrix4(m00, m01, m02, m03, m10, m11, m12, m13, m20, m21, m22, m23, m30, m31, m32,
            m33), 2, 3) == signed(5, m00 * (m11 * m32 - m31 * m12) - m01 * (m10 * m32 - m30 * m12)
            + m02 * (m10 * m31 - m30 * m11)),
        cofactor(matrix4(m00, m01, m02, m03, m10, m11, m12, m13, m20, m21, m22, m23, m30, m31, m32,
            m33), 3, 0) == signed(3, m01 * (m12 * m23 - m22 * m13) - m02 * (m11 * m23 - m21 * m13)
            + m03 * (m11 * m22 - m21 * m12)),
        cofactor(matrix4(m00, m01, m02, m03, m10, m11, m12, m13, m20, m21, m22, m23, m30, m31, m32,
            m33), 3, 1) == signed(4, m00 * (m12 * m23 - m22 * m13) - m02 * (m10 * m23 - m20 * m13)
            + m03 * (m10 * m22 - m20 * m12)),
        cofactor(matrix4(m00, m01, m02, m03, m10, m11, m12, m13, m20, m21, m22, m23, m30, m31, m32,
            m33), 3, 2) == signed(5, m00 * (m11 * m23 - m21 * m13) - m01 * (m10 * m23 - m20 * m13)
            + m03 * (m10 * m21 - m20 * m11)),
        cofactor(matrix4(m00, m01, m02, m03, m10, m11, m12, m13, m20, m21, m22, m23, m30, m31, m32,
            m33), 3, 3) == signed(6, m00 * (m11 * m22 - m21 * m12) - m01 * (m10 * m22 - m20 * m12)
            + m02 * (m10 * m21 - m20 * m11)),
{
    let m = matrix4(m00, m01, m02, m03, m10, m11, m12, m13, m20, m21, m22, m23, m30, m31, m32, m33);
    assert(sub_matrix(m, 0, 0) =~~= matrix3(m11, m12, m13, m21, m22, m23, m31, m32, m33));
    lemma_determinant3(m11, m12, m13, m21, m22, m23, m31, m32, m33);
    assert(sub_matrix(m, 0, 1) =~~= matrix3(m10, m12, m13, m20, m22, m23, m30, m32, m33));
    lemma_determinant3(m10, m12, m13, m20, m22, m23, m30, m32, m33);
    assert(sub_matrix(m, 0, 2) =~~= matrix3(m10, m11, m13, m20, m21, m23, m30, m31, m33));
    lemma_determinant3(m10, m11, m13, m20, m21, m23, m30, m31, m33);
    assert(sub_matrix(m, 0, 3) =~~= matrix3(m10, m11, m12, m20, m21, m22, m30, m31, m32));
    lemma_determinant3(m10, m11, m12, m20, m21, m22, m30, m31, m32);
    assert(sub_matrix(m, 1, 0) =~~= matrix3(m01, m02, m03, m21, m22, m23, m31, m32, m33));
    lemma_determinant3(m01, m02, m03, m21, m22, m23, m31, m32, m33);
    assert(sub_matrix(m, 1, 1) =~~= matrix3(m00, m02, m03, m20, m22, m23, m30, m32, m33));
    lemma_determinant3(m00, m02, m03, m20, m22, m23, m30, m32, m33);
    assert(sub_matrix(m, 1, 2) =~~= matrix3(m00, m01, m03, m20, m21, m23, m30, m31, m33));
    lemma_determinant3(m00, m01, m03, m20, m21, m23, m30, m31, m33);
    assert(sub_matrix(m, 1, 3) =~~= matrix3(m00, m01, m02, m20, m21, m22, m30, m31, m32));
    lemma_determinant3(m00, m01, m02, m20, m21, m22, m30, m31, m32);
    assert(sub_matrix(m, 2, 0) =~~= matrix3(m01, m02, m03, m11, m12, m13, m31, m32, m33));
    lemma_determinant3(m01, m02, m03, m11, m12, m13, m31, m32, m33);
    assert(sub_matrix(m, 2, 1) =~~= matrix3(m00, m02, m03, m10, m12, m13, m30, m32, m33));
    lemma_determinant3(m00, m02, m03, m10, m12, m13, m30, m32, m33);
    assert(sub_matrix(m, 2, 2) =~~= matrix3(m00, m01, m03, m10, m11, m13, m30, m31, m33));
    lemma_determinant3(m00, m01, m03, m10, m11, m13, m30, m31, m33);
    assert(sub_matrix(m, 2, 3) =~~= matrix3(m00, m01, m02, m10, m11, m12, m30, m31, m32));
    lemma_determinant3(m00, m01, m02, m10, m11, m12, m30, m31, m32);
    assert(sub_matrix(m, 3, 0) =~~= matrix3(m01, m02, m03, m11, m12, m13, m21, m22, m23));
    lemma_determinant3(m01, m02, m03, m11, m12, m13, m21, m22, m23);
    assert(sub_matrix(m, 3, 1) =~~= matrix3(m00, m02, m03, m10, m12, m13, m20, m22, m23));
    lemma_determinant3(m00, m02, m03, m10, m12, m13, m20, m22, m23);
    assert(sub_matrix(m, 3, 2) =~~= matrix3(m00, m01, m03, m10, m11, m13, m20, m21, m23));
    lemma_determinant3(m00, m01, m03, m10, m11, m13, m20, m21, m23);
    assert(sub_matrix(m, 3, 3) =~~= matrix3(m00, m01, m02, m10, m11, m12, m20, m21, m22));
    lemma_determinant3(m00, m01, m02, m10, m11, m12, m20, m21, m22);
}

} // verus!
