use raytracer::point::{Point, Vector};

#[test]
fn should_add_a_vector_to_a_point() {
    let v1 = Vector::new(3, -2, 5);
    let v2 = Vector::new(-2, 1, 1);
    assert_eq!(Vector::new(1, -1, 6), v1.add(&v2));
}

#[test]
fn should_move_a_point_by_a_vector() {
    let p = Point::new(3, -2, 5);
    let v = Vector::new(-2, 3, 1);
    assert_eq!(Point::new(1, 1, 6), p.add_vector(&v));
}

#[test]
fn should_subtract_two_points() {
    let p1 = Point::new(3, 2, 1);
    let p2 = Point::new(5, 6, 7);
    assert_eq!(Vector::new(-2, -4, -6), p1.sub_point(&p2));
}

#[test]
fn should_create_tuple_that_is_a_point() {
    assert_eq!(Point::new(1, 1, 1), Point { x: 1, y: 1, z: 1 });
    assert_eq!(Point::from([1, 2, 3]), Point { x: 1, y: 2, z: 3 });
}

#[test]
fn should_subtract_vector_from_point() {
    let p1 = Point::new(3, 2, 1);
    let p2 = Vector::new(5, 6, 7);
    assert_eq!(Point::new(-2, -4, -6), p1.sub_vector(&p2));
}

#[test]
fn should_multiply_a_point_by_an_integer_scalar() {
    let a = Point::new(1, -2, 3);
    assert_eq!(Point::new(3, -6, 9), a.scale(3));
}

#[test]
fn should_negate_a_point() {
    let a = Point::new(1, -2, 3);
    assert_eq!(Point::new(-1, 2, -3), a.negate());
}
