//! Fixed-size square matrices with integer entries.
use vstd::prelude::*;
use crate::algebra::{
    abs, adjugate, cofactor, cofactor_expansion, determinant, dot, entries_within, identity,
    lemma_abs_mul, lemma_determinant2_within, lemma_determinant3_within, lemma_dot_bounded,
    lemma_expansion_within, lemma_sub_matrix_shape, magnitude_dot, minor, product, product_fits,
    skip, sub_matrix, transposed, zero,
};

verus! {

/// A square grid of integer entries whose dimension `D` is fixed at compile time,
/// stored row by row.
#[derive(Copy, Clone, Debug, Eq)]
pub struct Matrix<const D: usize> {
    pub entries: [[i64; D]; D],
}

impl<const D: usize> View for Matrix<D> {
    type V = Seq<Seq<int>>;

    open spec fn view(&self) -> Seq<Seq<int>> {
        Seq::new(D as nat, |r: int| Seq::new(D as nat, |c: int| self.entries[r][c] as int))
    }
}

impl<const D: usize> From<[[i64; D]; D]> for Matrix<D> {
    fn from(entries: [[i64; D]; D]) -> (r: Self)
        ensures
            r.entries == entries,
    {
        Matrix { entries }
    }
}

impl<const D: usize> vstd::std_specs::convert::FromSpecImpl<[[i64; D]; D]> for Matrix<D> {
    open spec fn obeys_from_spec() -> bool {
        true
    }

    open spec fn from_spec(entries: [[i64; D]; D]) -> Self {
        Matrix { entries }
    }
}

impl<const D: usize> PartialEq for Matrix<D> {
    /// Entry-by-entry comparison.
    fn eq(&self, other: &Matrix<D>) -> (r: bool) {
        let mut row: usize = 0;
        while row < D
            invariant
                row <= D,
                forall|i: int, j: int| 0 <= i < row && 0 <= j < D ==> self@[i][j] == other@[i][j],
            decreases D - row,
        {
            let mut col: usize = 0;
            while col < D
                invariant
                    row < D,
                    col <= D,
                    forall|i: int, j: int|
                        0 <= i < row && 0 <= j < D ==> self@[i][j] == other@[i][j],
                    forall|j: int| 0 <= j < col ==> self@[row as int][j] == other@[row as int][j],
                decreases D - col,
            {
                if self.entries[row][col] != other.entries[row][col] {
                    assert(self@[row as int][col as int] != other@[row as int][col as int]);
                    return false;
                }
                col += 1;
            }
            row += 1;
        }
        assert(self@ =~~= other@);
        true
    }
}

impl<const D: usize> vstd::std_specs::cmp::PartialEqSpecImpl for Matrix<D> {
    open spec fn obeys_eq_spec() -> bool {
        true
    }

    open spec fn eq_spec(&self, other: &Matrix<D>) -> bool {
        self@ == other@
    }
}

impl<const D: usize> Matrix<D> {
    /// The matrix of zeros.
    pub fn new() -> (r: Self)
        ensures
            r@ == zero(D as nat),
    {
        let r = Matrix { entries: [[0i64; D]; D] };
        assert(r@ =~~= zero(D as nat));
        r
    }

    /// The identity matrix.
    pub fn identity() -> (r: Self)
        ensures
            r@ == identity(D as nat),
    {
        let mut entries = [[0i64; D]; D];
        let mut i: usize = 0;
        while i < D
            invariant
                i <= D,
                forall|r: int, c: int|
                    0 <= r < D && 0 <= c < D ==> entries[r][c] == (if r == c && r < i {
                        1int
                    } else {
                        0int
                    }),
            decreases D - i,
        {
            entries[i][i] = 1;
            i += 1;
        }
        let r = Matrix { entries };
        assert(r@ =~~= identity(D as nat));
        r
    }

    /// The entry at `(row, col)`.
    pub fn get(&self, row: usize, col: usize) -> (r: i64)
        requires
            row < D,
            col < D,
        ensures
            r == self@[row as int][col as int],
    {
        self.entries[row][col]
    }

    /// Overwrites the entry at `(row, col)`, leaving the others as they were.
    pub fn set(&mut self, row: usize, col: usize, value: i64)
        requires
            row < D,
            col < D,
        ensures
            final(self)@ == old(self)@.update(row as int, old(self)@[row as int].update(col as int,
                value as int)),
    {
        self.entries[row][col] = value;
        assert(final(self)@ =~~= old(self)@.update(row as int,
            old(self)@[row as int].update(col as int, value as int)));
    }

    /// Swaps rows and columns.
    pub fn transpose(&self) -> (r: Self)
        ensures
            r@ == transposed(self@),
    {
        let mut entries = [[0i64; D]; D];
        let mut row: usize = 0;
        while row < D
            invariant
                row <= D,
                forall|i: int, j: int|
                    0 <= i < D && 0 <= j < row ==> entries[i][j] == self.entries[j][i],
            decreases D - row,
        {
            let mut col: usize = 0;
            while col < D
                invariant
                    row < D,
                    col <= D,
                    forall|i: int, j: int|
                        0 <= i < D && 0 <= j < row ==> entries[i][j] == self.entries[j][i],
                    forall|i: int| 0 <= i < col ==> entries[i][row as int]
                        == self.entries[row as int][i],
                decreases D - col,
            {
                entries[col][row] = self.entries[row][col];
                col += 1;
            }
            row += 1;
        }
        let r = Matrix { entries };
        assert(r@ =~~= transposed(self@));
        r
    }

    /// The matrix product `self * other`: applying the result to a point applies
    /// `other` first, then `self`.
    pub fn multiply(&self, other: &Self) -> (r: Self)
        requires
            product_fits(self@, other@),
        ensures
            r@ == product(self@, other@),
    {
        let mut entries = [[0i64; D]; D];
        let mut row: usize = 0;
        while row < D
            invariant
                row <= D,
                product_fits(self@, other@),
                forall|i: int, j: int|
                    0 <= i < row && 0 <= j < D ==> entries[i][j] == dot(self@, other@, i, j,
                        D as int),
            decreases D - row,
        {
            let mut col: usize = 0;
            while col < D
                invariant
                    row < D,
                    col <= D,
                    product_fits(self@, other@),
                    forall|i: int, j: int|
                        0 <= i < row && 0 <= j < D ==> entries[i][j] == dot(self@, other@, i, j,
                            D as int),
                    forall|j: int| 0 <= j < col ==> entries[row as int][j] == dot(self@, other@,
                        row as int, j, D as int),
                decreases D - col,
            {
                let mut sum: i64 = 0;
                let mut i: usize = 0;
                proof {
                    lemma_dot_bounded(self@, other@, row as int, col as int, D as int);
                    assert(magnitude_dot(self@, other@, row as int, col as int,
                        self@.len() as int) <= i64::MAX);
                }
                while i < D
                    invariant
                        row < D,
                        col < D,
                        i <= D,
                        sum == dot(self@, other@, row as int, col as int, i as int),
                        magnitude_dot(self@, other@, row as int, col as int, D as int) <= i64::MAX,
                        forall|j: int| 0 <= j <= D ==> #[trigger] magnitude_dot(self@, other@,
                            row as int, col as int, j)
                            <= magnitude_dot(self@, other@, row as int, col as int, D as int),
                    decreases D - i,
                {
                    let a = self.entries[row][i];
                    let b = other.entries[i][col];
                    proof {
                        lemma_dot_bounded(self@, other@, row as int, col as int, i as int);
                        lemma_dot_bounded(self@, other@, row as int, col as int, i + 1);
                        lemma_abs_mul(a as int, b as int);
                        assert(magnitude_dot(self@, other@, row as int, col as int, i
                            + 1) <= i64::MAX);
                    }
                    sum = sum + a * b;
                    i += 1;
                }
                entries[row][col] = sum;
                col += 1;
            }
            row += 1;
        }
        let r = Matrix { entries };
        assert(r@ =~~= product(self@, other@));
        r
    }
}

} // verus!

verus! {

/// Entry magnitude up to which every product and partial sum of a 2×2 determinant fits in `i64`.
pub const DET2_BOUND: i64 = 2147483647;

/// Entry magnitude up to which every step of a 3×3 cofactor expansion fits in `i64`.
pub const DET3_BOUND: i64 = 1048576;

/// Entry magnitude up to which every step of a 4×4 cofactor expansion fits in `i64`.
pub const DET4_BOUND: i64 = 16384;

impl Matrix<2> {
    /// `a[0][0] * a[1][1] - a[1][0] * a[0][1]`.
    pub fn determinant(&self) -> (r: i64)
        requires
            entries_within(self@, DET2_BOUND as int),
        ensures
            r == determinant(self@),
    {
        proof {
            lemma_determinant2_within(self@, DET2_BOUND as int);
        }
        self.entries[0][0] * self.entries[1][1] - self.entries[1][0] * self.entries[0][1]
    }

    /// Whether the determinant is nonzero.
    pub fn is_invertible(&self) -> (r: bool)
        requires
            entries_within(self@, DET2_BOUND as int),
        ensures
            r == (determinant(self@) != 0),
    {
        self.determinant() != 0
    }
}

impl Matrix<3> {
    /// The 2×2 matrix left after deleting row `row` and column `col`.
    pub fn submatrix(&self, row: usize, col: usize) -> (r: Matrix<2>)
        requires
            row < 3,
            col < 3,
        ensures
            r@ == sub_matrix(self@, row as int, col as int),
    {
        let mut entries = [[0i64; 2]; 2];
        let mut i: usize = 0;
        while i < 2
            invariant
                i <= 2,
                row < 3,
                col < 3,
                forall|a: int, b: int|
                    0 <= a < i && 0 <= b < 2 ==>
                        entries[a][b] == sub_matrix(self@, row as int, col as int)[a][b],
            decreases 2 - i,
        {
            let source_row: usize = if i < row { i } else { i + 1 };
            let mut j: usize = 0;
            while j < 2
                invariant
                    i < 2,
                    j <= 2,
                    row < 3,
                    col < 3,
                    source_row == skip(i as int, row as int),
                    forall|a: int, b: int|
                        0 <= a < i && 0 <= b < 2 ==>
                            entries[a][b] == sub_matrix(self@, row as int, col as int)[a][b],
                    forall|b: int|
                        0 <= b < j ==>
                            entries[i as int][b] == sub_matrix(self@, row as int, col as int)[i as int][b],
                decreases 2 - j,
            {
                let source_col: usize = if j < col { j } else { j + 1 };
                entries[i][j] = self.entries[source_row][source_col];
                j += 1;
            }
            i += 1;
        }
        let r = Matrix { entries };
        assert(r@ =~~= sub_matrix(self@, row as int, col as int));
        r
    }

    /// The determinant of the submatrix at `(row, col)`.
    pub fn minor(&self, row: usize, col: usize) -> (r: i64)
        requires
            row < 3,
            col < 3,
            entries_within(self@, DET2_BOUND as int),
        ensures
            r == minor(self@, row as int, col as int),
            abs(r as int) <= 2 * DET2_BOUND * DET2_BOUND,
    {
        let s = self.submatrix(row, col);
        proof {
            lemma_sub_matrix_shape(self@, 3, row as int, col as int, DET2_BOUND as int);
            lemma_determinant2_within(s@, DET2_BOUND as int);
        }
        s.determinant()
    }

    /// The minor at `(row, col)`, negated when `row + col` is odd.
    pub fn cofactor(&self, row: usize, col: usize) -> (r: i64)
        requires
            row < 3,
            col < 3,
            entries_within(self@, DET2_BOUND as int),
        ensures
            r == cofactor(self@, row as int, col as int),
    {
        let m = self.minor(row, col);
        if (row + col) % 2 == 0 {
            m
        } else {
            -m
        }
    }

    /// The cofactor expansion along row 0.
    pub fn determinant(&self) -> (r: i64)
        requires
            entries_within(self@, DET3_BOUND as int),
        ensures
            r == determinant(self@),
    {
        let ghost b = DET3_BOUND as int;
        let mut sum: i64 = 0;
        let mut col: usize = 0;
        while col < 3
            invariant
                col <= 3,
                entries_within(self@, b),
                b == DET3_BOUND,
                sum == cofactor_expansion(self@, col as int),
                forall|c: int| 0 <= c < col ==> abs(#[trigger] cofactor(self@, 0, c)) <= 2 * b * b,
            decreases 3 - col,
        {
            let term = self.cofactor(0, col);
            proof {
                lemma_sub_matrix_shape(self@, 3, 0, col as int, b);
                lemma_determinant2_within(sub_matrix(self@, 0, col as int), b);
                assert(abs(cofactor(self@, 0, col as int)) <= 2 * b * b);
                lemma_expansion_within(self@, col + 1, b, 2 * b * b);
                assert((col + 1) * (b * (2 * b * b)) <= 3 * (b * (2 * b * b))) by (nonlinear_arith)
                    requires col + 1 <= 3, b >= 0;
            }
            sum = sum + self.entries[0][col] * term;
            col += 1;
        }
        sum
    }

    /// Whether the determinant is nonzero.
    pub fn is_invertible(&self) -> (r: bool)
        requires
            entries_within(self@, DET3_BOUND as int),
        ensures
            r == (determinant(self@) != 0),
    {
        self.determinant() != 0
    }
}

} // verus!

verus! {

/// The exact inverse of an invertible 4×4 matrix, kept as integer numerators over one
/// common denominator: entry `(row, col)` of the inverse is
/// `numerators.entries[row][col] / denominator`.
#[derive(Copy, Clone, Debug, PartialEq, Eq)]
pub struct Inverse {
    pub numerators: Matrix<4>,
    pub denominator: i64,
}

impl Matrix<4> {
    /// The 3×3 matrix left after deleting row `row` and column `col`.
    pub fn submatrix(&self, row: usize, col: usize) -> (r: Matrix<3>)
        requires
            row < 4,
            col < 4,
        ensures
            r@ == sub_matrix(self@, row as int, col as int),
    {
        let mut entries = [[0i64; 3]; 3];
        let mut i: usize = 0;
        while i < 3
            invariant
                i <= 3,
                row < 4,
                col < 4,
                forall|a: int, b: int|
                    0 <= a < i && 0 <= b < 3 ==>
                        entries[a][b] == sub_matrix(self@, row as int, col as int)[a][b],
            decreases 3 - i,
        {
            let source_row: usize = if i < row { i } else { i + 1 };
            let mut j: usize = 0;
            while j < 3
                invariant
                    i < 3,
                    j <= 3,
                    row < 4,
                    col < 4,
                    source_row == skip(i as int, row as int),
                    forall|a: int, b: int|
                        0 <= a < i && 0 <= b < 3 ==>
                            entries[a][b] == sub_matrix(self@, row as int, col as int)[a][b],
                    forall|b: int|
                        0 <= b < j ==>
                            entries[i as int][b] == sub_matrix(self@, row as int, col as int)[i as int][b],
                decreases 3 - j,
            {
                let source_col: usize = if j < col { j } else { j + 1 };
                entries[i][j] = self.entries[source_row][source_col];
                j += 1;
            }
            i += 1;
        }
        let r = Matrix { entries };
        assert(r@ =~~= sub_matrix(self@, row as int, col as int));
        r
    }

    /// The determinant of the submatrix at `(row, col)`.
    pub fn minor(&self, row: usize, col: usize) -> (r: i64)
        requires
            row < 4,
            col < 4,
            entries_within(self@, DET3_BOUND as int),
        ensures
            r == minor(self@, row as int, col as int),
    {
        let s = self.submatrix(row, col);
        proof {
            lemma_sub_matrix_shape(self@, 4, row as int, col as int, DET3_BOUND as int);
        }
        s.determinant()
    }

    /// The minor at `(row, col)`, negated when `row + col` is odd.
    pub fn cofactor(&self, row: usize, col: usize) -> (r: i64)
        requires
            row < 4,
            col < 4,
            entries_within(self@, DET3_BOUND as int),
        ensures
            r == cofactor(self@, row as int, col as int),
    {
        let m = self.minor(row, col);
        proof {
            let b = DET3_BOUND as int;
            lemma_sub_matrix_shape(self@, 4, row as int, col as int, b);
            lemma_determinant3_within(sub_matrix(self@, row as int, col as int), b);
        }
        if (row + col) % 2 == 0 {
            m
        } else {
            -m
        }
    }

    /// The cofactor expansion along row 0.
    pub fn determinant(&self) -> (r: i64)
        requires
            entries_within(self@, DET4_BOUND as int),
        ensures
            r == determinant(self@),
    {
        let ghost b = DET4_BOUND as int;
        let mut sum: i64 = 0;
        let mut col: usize = 0;
        while col < 4
            invariant
                col <= 4,
                entries_within(self@, b),
                b == DET4_BOUND,
                sum == cofactor_expansion(self@, col as int),
                forall|c: int| 0 <= c < col ==> abs(#[trigger] cofactor(self@, 0,
                    c)) <= 3 * (b * (2 * b * b)),
            decreases 4 - col,
        {
            let term = self.cofactor(0, col);
            proof {
                lemma_sub_matrix_shape(self@, 4, 0, col as int, b);
                lemma_determinant3_within(sub_matrix(self@, 0, col as int), b);
                assert(abs(cofactor(self@, 0, col as int)) <= 3 * (b * (2 * b * b)));
                lemma_expansion_within(self@, col + 1, b, 3 * (b * (2 * b * b)));
                assert((col
                    + 1) * (b * (3 * (b * (2 * b * b)))) <= 4 * (b * (3 * (b * (2 * b * b)))))
                    by (nonlinear_arith)
                    requires col + 1 <= 4, b >= 0;
            }
            sum = sum + self.entries[0][col] * term;
            col += 1;
        }
        sum
    }

    /// Whether the determinant is nonzero.
    pub fn is_invertible(&self) -> (r: bool)
        requires
            entries_within(self@, DET4_BOUND as int),
        ensures
            r == (determinant(self@) != 0),
    {
        self.determinant() != 0
    }

    /// The adjugate: entry `(col, row)` is the cofactor at `(row, col)`.
    pub fn adjugate(&self) -> (r: Matrix<4>)
        requires
            entries_within(self@, DET3_BOUND as int),
        ensures
            r@ == adjugate(self@),
    {
        let mut entries = [[0i64; 4]; 4];
        let mut row: usize = 0;
        while row < 4
            invariant
                row <= 4,
                entries_within(self@, DET3_BOUND as int),
                forall|i: int, j: int|
                    0 <= i < 4 && 0 <= j < row ==> entries[i][j] == cofactor(self@, j, i),
            decreases 4 - row,
        {
            let mut col: usize = 0;
            while col < 4
                invariant
                    row < 4,
                    col <= 4,
                    entries_within(self@, DET3_BOUND as int),
                    forall|i: int, j: int|
                        0 <= i < 4 && 0 <= j < row ==> entries[i][j] == cofactor(self@, j, i),
                    forall|i: int| 0 <= i < col ==> entries[i][row as int] == cofactor(self@,
                        row as int, i),
                decreases 4 - col,
            {
                entries[col][row] = self.cofactor(row, col);
                col += 1;
            }
            row += 1;
        }
        let r = Matrix { entries };
        assert(r@ =~~= adjugate(self@));
        r
    }

    /// The exact inverse: entry `(col, row)` is `cofactor(row, col) / determinant`.
    pub fn inverse(&self) -> (r: Inverse)
        requires
            entries_within(self@, DET4_BOUND as int),
            determinant(self@) != 0,
        ensures
            r.numerators@ == adjugate(self@),
            r.denominator == determinant(self@),
    {
        Inverse { numerators: self.adjugate(), denominator: self.determinant() }
    }
}

} // verus!
