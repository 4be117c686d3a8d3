use raytracer::matrix::Matrix;
use raytracer::point::{Point, Vector};

#[test]
fn should_multiply_by_a_translation_matrix() {
    let transform = Matrix::translation(5, -3, 2);
    let p = Point::new(-3, 4, 5);
    assert_eq!(transform.apply_to_point(&p), Point::new(2, 1, 7));
}

#[test]
fn should_multiply_by_the_inverse_of_a_translation_matrix() {
    let transform = Matrix::translation(5, -3, 2);
    let inv = transform.inverse();
    let p = Point::new(-3, 4, 5);
    assert_eq!(inv.denominator, 1);
    assert_eq!(inv.numerators.apply_to_point(&p), Point::new(-8, 7, 3));
}

#[test]
fn should_leave_a_vector_unchanged_by_translation() {
    let transform = Matrix::translation(5, -3, 2);
    let v = Vector::new(-3, 4, 5);
    assert_eq!(transform.apply_to_vector(&v), v);
}

#[test]
fn should_scale_a_matrix_applied_to_a_point() {
    let transform = Matrix::scaling(2, 3, 4);
    let p = Point::new(-4, 6, 8);
    assert_eq!(transform.apply_to_point(&p), Point::new(-8, 18, 32));
}

#[test]
fn should_scale_a_matrix_applied_to_a_vector() {
    let transform = Matrix::scaling(2, 3, 4);
    let v = Vector::from([-4, 6, 8]);
    assert_eq!(transform.apply_to_vector(&v), Vector::from([-8, 18, 32]));
}

#[test]
fn should_multiply_by_the_inverse_of_a_scaling_matrix() {
    let transform = Matrix::scaling(2, 3, 4);
    let inv = transform.inverse();
    let v = Vector::from([-4, 6, 8]);
    let numerators = inv.numerators.apply_to_vector(&v);
    assert_eq!(inv.denominator, 24);
    assert_eq!(numerators.x / inv.denominator, -2);
    assert_eq!(numerators.y / inv.denominator, 2);
    assert_eq!(numerators.z / inv.denominator, 2);
    assert_eq!(numerators, Vector::from([-48, 48, 48]));
}

#[test]
fn should_reflect_by_scaling_with_a_negative_value() {
    let transform = Matrix::scaling(-1, 1, 1);
    let p = Point::new(2, 3, 4);
    assert_eq!(transform.apply_to_point(&p), Point::new(-2, 3, 4));
}

#[test]
fn should_rotate_a_point_a_quarter_turn_around_the_x_axis() {
    let p = Point::new(0, 1, 0);
    assert_eq!(Matrix::rotation_x(1).apply_to_point(&p), Point::new(0, 0, 1));
    assert_eq!(Matrix::rotation_x(2).apply_to_point(&p), Point::new(0, -1, 0));
    assert_eq!(Matrix::rotation_x(4).apply_to_point(&p), p);
}

#[test]
fn should_rotate_a_point_a_quarter_turn_in_the_inverse_direction() {
    let p = Point::new(0, 1, 0);
    let inv = Matrix::rotation_x(1).inverse();
    assert_eq!(inv.denominator, 1);
    assert_eq!(inv.numerators.apply_to_point(&p), Point::new(0, 0, -1));
    assert_eq!(inv.numerators, Matrix::rotation_x(3));
}

#[test]
fn should_rotate_a_point_a_quarter_turn_around_the_y_axis() {
    let p = Point::new(0, 0, 1);
    assert_eq!(Matrix::rotation_y(1).apply_to_point(&p), Point::new(1, 0, 0));
}

#[test]
fn should_rotate_a_point_a_quarter_turn_around_the_z_axis() {
    let p = Point::new(0, 1, 0);
    assert_eq!(Matrix::rotation_z(1).apply_to_point(&p), Point::new(-1, 0, 0));
}

#[test]
fn should_compose_two_quarter_turns_into_a_half_turn() {
    let quarter = Matrix::rotation_x(1);
    let p = Point::new(0, 1, 0);
    let twice = quarter.multiply(&quarter);
    assert_eq!(twice, Matrix::rotation_x(2));
    assert_eq!(twice.apply_to_point(&p), Matrix::rotation_x(2).apply_to_point(&p));
    assert_eq!(Matrix::rotation_y(3).multiply(&Matrix::rotation_y(2)), Matrix::rotation_y(1));
    assert_eq!(Matrix::rotation_z(1).multiply(&Matrix::rotation_z(3)), Matrix::<4>::identity());
}

#[test]
fn should_move_x_in_proportion_to_y() {
    let transform = Matrix::shearing(1, 0, 0, 0, 0, 0);
    assert_eq!(transform.apply_to_point(&Point::new(2, 3, 4)), Point::new(5, 3, 4));
}

#[test]
fn should_move_x_in_proportion_to_z() {
    let transform = Matrix::shearing(0, 1, 0, 0, 0, 0);
    assert_eq!(transform.apply_to_point(&Point::new(2, 3, 4)), Point::new(6, 3, 4));
}

#[test]
fn should_move_y_in_proportion_to_x() {
    let transform = Matrix::shearing(0, 0, 1, 0, 0, 0);
    assert_eq!(transform.apply_to_point(&Point::new(2, 3, 4)), Point::new(2, 5, 4));
}

#[test]
fn should_move_y_in_proportion_to_z() {
    let transform = Matrix::shearing(0, 0, 0, 1, 0, 0);
    assert_eq!(transform.apply_to_point(&Point::new(2, 3, 4)), Point::new(2, 7, 4));
}

#[test]
fn should_move_z_in_proportion_to_x() {
    let transform = Matrix::shearing(0, 0, 0, 0, 1, 0);
    assert_eq!(transform.apply_to_point(&Point::new(2, 3, 4)), Point::new(2, 3, 6));
}

#[test]
fn should_move_z_in_proportion_to_y() {
    let transform = Matrix::shearing(0, 0, 0, 0, 0, 1);
    assert_eq!(transform.apply_to_point(&Point::new(2, 3, 4)), Point::new(2, 3, 7));
}

#[test]
fn should_apply_quarter_turn_scaling_and_translation_in_sequence() {
    let p = Point::new(1, 0, 1);
    let a = Matrix::rotation_x(1);
    let b = Matrix::scaling(5, 5, 5);
    let c = Matrix::translation(10, 5, 7);

    let p2 = a.apply_to_point(&p);
    assert_eq!(p2, Point::new(1, -1, 0));
    let p3 = b.apply_to_point(&p2);
    assert_eq!(p3, Point::new(5, -5, 0));
    let p4 = c.apply_to_point(&p3);
    assert_eq!(p4, Point::new(15, 0, 7));
}

#[test]
fn should_transform_quarter_turn_scaling_and_translation_in_reversed_order() {
    let p = Point::new(1, 0, 1);
    let a = Matrix::rotation_x(1);
    let b = Matrix::scaling(5, 5, 5);
    let c = Matrix::translation(10, 5, 7);

    let t = c.multiply(&b).multiply(&a);
    assert_eq!(t.apply_to_point(&p), Point::new(15, 0, 7));
}
