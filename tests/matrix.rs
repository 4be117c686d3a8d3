use raytracer::matrix::{Inverse, Matrix};
use raytracer::point::Point;

const EPSILON: f64 = 0.00001;

fn close(a: f64, b: f64) -> bool {
    (a - b).abs() < EPSILON
}

fn assert_inverse_close(inv: &Inverse, expected: [[f64; 4]; 4]) {
    for row in 0..4 {
        for col in 0..4 {
            let actual = inv.numerators.entries[row][col] as f64 / inv.denominator as f64;
            assert!(
                close(actual, expected[row][col]),
                "entry ({}, {}): {} vs {}",
                row,
                col,
                actual,
                expected[row][col]
            );
        }
    }
}

#[test]
fn should_compare_identical_matrices() {
    let a = Matrix::from([[1, 2, 3, 4], [5, 6, 7, 8], [9, 8, 7, 6], [5, 4, 3, 2]]);
    let b = Matrix::from([[1, 2, 3, 4], [5, 6, 7, 8], [9, 8, 7, 6], [5, 4, 3, 2]]);
    assert_eq!(a, b);
}

#[test]
fn should_compare_different_matrices() {
    let a = Matrix::from([[1, 2, 3, 4], [5, 6, 7, 8], [9, 8, 7, 6], [5, 4, 3, 2]]);
    let b = Matrix::from([[2, 3, 4, 5], [6, 7, 8, 9], [8, 7, 6, 5], [4, 3, 2, 1]]);
    assert_ne!(a, b);
}

#[test]
fn should_construct_and_inspect_an_integer_4_by_4_matrix() {
    let m = Matrix::from([[1, 2, 3, 4], [5, 6, 7, 8], [9, 10, 11, 12], [13, 14, 15, 16]]);
    assert_eq!(m.get(0, 0), 1);
    assert_eq!(m.get(0, 3), 4);
    assert_eq!(m.get(1, 0), 5);
    assert_eq!(m.get(1, 2), 7);
    assert_eq!(m.get(2, 2), 11);
    assert_eq!(m.get(3, 0), 13);
    assert_eq!(m.get(3, 2), 15);
}

#[test]
fn should_set_one_entry_only() {
    let mut m: Matrix<3> = Matrix::new();
    m.set(1, 2, 7);
    assert_eq!(m, Matrix::from([[0, 0, 0], [0, 0, 7], [0, 0, 0]]));
}

#[test]
fn should_multiply_two_matrices() {
    let a = Matrix::from([[1, 2, 3, 4], [5, 6, 7, 8], [9, 8, 7, 6], [5, 4, 3, 2]]);
    let b = Matrix::from([[-2, 1, 2, 3], [3, 2, 1, -1], [4, 3, 6, 5], [1, 2, 7, 8]]);
    let expected = Matrix::from([
        [20, 22, 50, 48],
        [44, 54, 114, 108],
        [40, 58, 110, 102],
        [16, 26, 46, 42],
    ]);
    assert_eq!(expected, a.multiply(&b));
}

#[test]
fn should_multiply_a_matrix_with_a_point() {
    let a = Matrix::from([[1, 2, 3, 4], [2, 4, 4, 2], [8, 6, 4, 1], [0, 0, 0, 1]]);
    let b = Point::new(1, 2, 3);
    assert_eq!(Point::new(18, 24, 33), a.apply_to_point(&b));
}

#[test]
fn should_multiply_matrix_by_the_identity_matrix() {
    let a = Matrix::from([[0, 1, 2, 4], [1, 2, 4, 8], [2, 4, 8, 16], [4, 8, 16, 32]]);
    let identity_matrix = Matrix::from([[1, 0, 0, 0], [0, 1, 0, 0], [0, 0, 1, 0], [0, 0, 0, 1]]);
    assert_eq!(a, a.multiply(&identity_matrix));
}

#[test]
fn should_build_the_identity_matrix() {
    let expected = Matrix::from([[1, 0, 0, 0], [0, 1, 0, 0], [0, 0, 1, 0], [0, 0, 0, 1]]);
    assert_eq!(expected, Matrix::<4>::identity());
    assert_eq!(Matrix::from([[1, 0], [0, 1]]), Matrix::<2>::identity());
}

#[test]
fn should_build_the_zero_matrix() {
    assert_eq!(Matrix::from([[0, 0, 0], [0, 0, 0], [0, 0, 0]]), Matrix::<3>::new());
}

#[test]
fn should_transpose_a_matrix() {
    let a = Matrix::from([[0, 9, 3, 0], [9, 8, 0, 8], [1, 8, 5, 3], [0, 0, 5, 8]]);
    let expected = Matrix::from([[0, 9, 1, 0], [9, 8, 8, 0], [3, 0, 5, 5], [0, 8, 3, 8]]);
    assert_eq!(expected, a.transpose());
}

#[test]
fn should_transpose_identity_matrix() {
    let identity_matrix = Matrix::from([[1, 0, 0, 0], [0, 1, 0, 0], [0, 0, 1, 0], [0, 0, 0, 1]]);
    assert_eq!(identity_matrix, identity_matrix.transpose());
}

#[test]
fn should_give_back_a_matrix_transposed_twice() {
    let a = Matrix::from([[0, 9, 3], [9, 8, 0], [1, 8, 5]]);
    assert_eq!(a, a.transpose().transpose());
    assert_ne!(a, a.transpose());
}

#[test]
fn should_calculate_the_determinant() {
    let a = Matrix::from([[1, 5], [-3, 2]]);
    assert_eq!(17, a.determinant());
}

#[test]
fn should_return_a_2_x_2_submatrix() {
    let a = Matrix::from([[1, 5, 0], [-3, 2, 7], [0, 6, -3]]);
    let expected = Matrix::from([[-3, 2], [0, 6]]);
    assert_eq!(expected, a.submatrix(0, 2));
}

#[test]
fn should_return_a_3_x_3_submatrix() {
    let a = Matrix::from([[-6, 1, 1, 6], [-8, 5, 8, 6], [-1, 0, 8, 2], [-7, 1, -1, 1]]);
    let expected = Matrix::from([[-6, 1, 6], [-8, 8, 6], [-7, -1, 1]]);
    assert_eq!(expected, a.submatrix(2, 1));
}

#[test]
fn should_return_minor_of_3_by_3_matrix() {
    let a = Matrix::from([[3, 5, 0], [2, -1, -7], [6, -1, 5]]);
    assert_eq!(a.minor(1, 0), 25);
}

#[test]
fn should_return_cofactor_of_3_by_3_matrix() {
    let a = Matrix::from([[3, 5, 0], [2, -1, -7], [6, -1, 5]]);
    assert_eq!(a.cofactor(0, 0), -12);
    assert_eq!(a.cofactor(1, 0), -25);
}

#[test]
fn should_calculate_the_determinant_of_a_3_by_3_matrix() {
    let a = Matrix::from([[1, 2, 6], [-5, 8, -4], [2, 6, 4]]);
    assert_eq!(a.cofactor(0, 0), 56);
    assert_eq!(a.cofactor(0, 1), 12);
    assert_eq!(a.cofactor(0, 2), -46);
    assert_eq!(a.determinant(), -196);
}

#[test]
fn should_calculate_the_determinant_of_a_4_by_4_matrix() {
    let a = Matrix::from([[-2, -8, 3, 5], [-3, 1, 7, 3], [1, 2, -9, 6], [-6, 7, 7, -9]]);
    assert_eq!(a.cofactor(0, 0), 690);
    assert_eq!(a.cofactor(0, 1), 447);
    assert_eq!(a.cofactor(0, 2), 210);
    assert_eq!(a.cofactor(0, 3), 51);
    assert_eq!(a.determinant(), -4071);
}

#[test]
fn should_expand_the_determinant_along_row_zero() {
    let a = Matrix::from([[-2, -8, 3, 5], [-3, 1, 7, 3], [1, 2, -9, 6], [-6, 7, 7, -9]]);
    let mut sum = 0;
    for col in 0..4 {
        sum += a.get(0, col) * a.cofactor(0, col);
    }
    assert_eq!(sum, a.determinant());
}

#[test]
fn should_determine_if_a_matrix_is_invertible() {
    let a = Matrix::from([[6, 4, 4, 4], [5, 5, 7, 6], [4, -9, 3, -7], [9, 1, 7, -6]]);
    assert!(a.is_invertible());

    let b = Matrix::from([[-4, 2, -2, -3], [9, 6, 2, 6], [0, -5, 1, -5], [0, 0, 0, 0]]);
    assert!(!b.is_invertible());
}

#[test]
fn should_tell_invertible_2_and_3_dimensional_matrices() {
    assert!(Matrix::from([[1, 5], [-3, 2]]).is_invertible());
    assert!(!Matrix::from([[1, 2], [2, 4]]).is_invertible());
    assert!(Matrix::from([[1, 2, 6], [-5, 8, -4], [2, 6, 4]]).is_invertible());
    assert!(!Matrix::from([[1, 2, 3], [4, 5, 6], [7, 8, 9]]).is_invertible());
}

#[test]
fn should_calculate_the_inverse_of_a_matrix() {
    let a = Matrix::from([[-5, 2, 6, -8], [1, -5, 1, 8], [7, 7, -6, -7], [1, -3, 7, 4]]);
    let expected = [
        [0.21805, 0.45113, 0.24060, -0.04511],
        [-0.80827, -1.45677, -0.44361, 0.52068],
        [-0.07895, -0.22368, -0.05263, 0.19737],
        [-0.52256, -0.81391, -0.30075, 0.30639],
    ];
    let b = a.inverse();

    assert_eq!(a.determinant(), 532);
    assert_eq!(a.cofactor(2, 3), -160);
    assert_eq!(a.cofactor(3, 2), 105);
    assert_eq!(b.denominator, 532);
    assert_eq!(b.numerators.get(3, 2), -160);
    assert_eq!(b.numerators.get(2, 3), 105);
    assert_inverse_close(&b, expected);
}

#[test]
fn should_calculate_the_inverse_of_another_matrix() {
    let a = Matrix::from([[8, -5, 9, 2], [7, 5, 6, 1], [-6, 0, 9, 6], [-3, 0, -9, -4]]);
    let expected = [
        [-0.15385, -0.15385, -0.28205, -0.53846],
        [-0.07692, 0.12308, 0.02564, 0.03077],
        [0.35897, 0.35897, 0.43590, 0.92308],
        [-0.69231, -0.69231, -0.76923, -1.92308],
    ];
    assert_inverse_close(&a.inverse(), expected);
}

#[test]
fn should_calculate_the_inverse_of_a_third_matrix() {
    let a = Matrix::from([[9, 3, 0, 9], [-5, -2, -6, -3], [-4, 9, 6, 4], [-7, 6, 6, 2]]);
    let expected = [
        [-0.04074, -0.07778, 0.14444, -0.22222],
        [-0.07778, 0.03333, 0.36667, -0.33333],
        [-0.02901, -0.14630, -0.10926, 0.12963],
        [0.17778, 0.06667, -0.26667, 0.33333],
    ];
    assert_inverse_close(&a.inverse(), expected);
}

#[test]
fn should_multiply_a_product_by_its_inverse() {
    let a = Matrix::from([[3, -9, 7, 3], [3, -8, 2, -9], [-4, 4, 4, 1], [-6, 5, -1, 1]]);
    let b = Matrix::from([[8, 2, 2, 2], [3, -1, 7, 0], [7, 0, 5, 4], [6, -2, 0, 5]]);
    let c = a.multiply(&b);
    let inv = b.inverse();
    let scaled = c.multiply(&inv.numerators);
    for row in 0..4 {
        for col in 0..4 {
            assert_eq!(scaled.get(row, col), inv.denominator * a.get(row, col));
        }
    }
}

#[test]
fn should_give_the_adjugate_as_transposed_cofactors() {
    let a = Matrix::from([[-5, 2, 6, -8], [1, -5, 1, 8], [7, 7, -6, -7], [1, -3, 7, 4]]);
    let adj = a.adjugate();
    for row in 0..4 {
        for col in 0..4 {
            assert_eq!(adj.get(col, row), a.cofactor(row, col));
        }
    }
    let product = a.multiply(&adj);
    let det = a.determinant();
    for row in 0..4 {
        for col in 0..4 {
            assert_eq!(product.get(row, col), if row == col { det } else { 0 });
        }
    }
}

#[test]
fn should_group_products_either_way() {
    let a = Matrix::from([[1, 2, 3, 4], [5, 6, 7, 8], [9, 8, 7, 6], [5, 4, 3, 2]]);
    let b = Matrix::from([[-2, 1, 2, 3], [3, 2, 1, -1], [4, 3, 6, 5], [1, 2, 7, 8]]);
    let c = Matrix::translation(10, 5, 7);
    assert_eq!(a.multiply(&b).multiply(&c), a.multiply(&b.multiply(&c)));
}

#[test]
fn should_compute_determinants_at_the_entry_bounds() {
    let b4 = raytracer::matrix::DET4_BOUND;
    let d4 = Matrix::from([[b4, 0, 0, 0], [0, b4, 0, 0], [0, 0, b4, 0], [0, 0, 0, b4]]);
    assert_eq!(d4.determinant(), b4 * b4 * b4 * b4);
    let full4 = Matrix::from([[b4, -b4, b4, -b4], [b4, b4, -b4, b4], [-b4, b4, b4, b4], [b4, b4, b4, -b4]]);
    assert_eq!(full4.determinant(), -8 * b4 * b4 * b4 * b4);

    let b3 = raytracer::matrix::DET3_BOUND;
    let d3 = Matrix::from([[b3, -b3, b3], [b3, b3, -b3], [-b3, b3, b3]]);
    assert_eq!(d3.determinant(), 4 * b3 * b3 * b3);

    let b2 = raytracer::matrix::DET2_BOUND;
    let d2 = Matrix::from([[b2, -b2], [b2, b2]]);
    assert_eq!(d2.determinant(), 2 * b2 * b2);
}

#[test]
fn should_give_zero_times_the_adjugate_of_a_singular_matrix() {
    let singular = Matrix::from([[1, 2, 3, 4], [2, 4, 6, 8], [0, 1, 0, 1], [5, 5, 5, 5]]);
    assert_eq!(singular.determinant(), 0);
    assert!(!singular.is_invertible());
    let product = singular.multiply(&singular.adjugate());
    assert_eq!(product, Matrix::<4>::new());
}
