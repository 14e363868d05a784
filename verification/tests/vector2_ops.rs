use pyr::math::vector::traits::VectorLike;
use pyr::math::Vector2;
use pyr::num::Zero;

#[test]
fn vector2_new() {
    let v = Vector2::<i32>::new(1, 2);
    assert_eq!(v.x, 1);
    assert_eq!(v.y, 2);
}

#[test]
fn vector_element_get() {
    let v = Vector2::<i32> { x: 1, y: 2 };
    assert_eq!(v.get(0), 1);
    assert_eq!(v.get(1), 2);
}

#[test]
fn vector2_add() {
    let v1 = Vector2::<i32> { x: 1, y: 2 };
    let v2 = Vector2::<i32> { x: 11, y: 23 };
    let v = v1 + v2;
    assert_eq!(v.x, 12);
    assert_eq!(v.y, 25);
}

#[test]
fn vector2_sub() {
    let v1 = Vector2::<i32> { x: 10, y: 11 };
    let v2 = Vector2::<i32> { x: 2, y: 9 };
    let v = v1 - v2;
    assert_eq!(v.x, 8);
    assert_eq!(v.y, 2);
}

#[test]
fn vector2_mul() {
    let v1 = Vector2::<i32> { x: 10, y: 11 };
    let v2 = Vector2::<i32> { x: 2, y: 9 };
    let v = v1 * v2;
    assert_eq!(v.x, 20);
    assert_eq!(v.y, 99);
}

#[test]
fn vector2_div() {
    let v1 = Vector2::<i32> { x: 10, y: 12 };
    let v2 = Vector2::<i32> { x: 2, y: 3 };
    let v = v1 / v2;
    assert_eq!(v.x, 5);
    assert_eq!(v.y, 4);
}

#[test]
fn vector2_add_assign() {
    let mut v1 = Vector2::<i32> { x: 1, y: 2 };
    let v2 = Vector2::<i32> { x: 11, y: 23 };
    v1.add_assign(v2);
    assert_eq!(v1.x, 12);
    assert_eq!(v1.y, 25);
}

#[test]
fn vector2_sub_assign() {
    let mut v1 = Vector2::<i32> { x: 10, y: 11 };
    let v2 = Vector2::<i32> { x: 2, y: 9 };
    v1.sub_assign(v2);
    assert_eq!(v1.x, 8);
    assert_eq!(v1.y, 2);
}

#[test]
fn vector2_mul_assign() {
    let mut v1 = Vector2::<i32> { x: 10, y: 11 };
    let v2 = Vector2::<i32> { x: 2, y: 9 };
    v1.mul_assign(v2);
    assert_eq!(v1.x, 20);
    assert_eq!(v1.y, 99);
}

#[test]
fn vector2_div_assign() {
    let mut v1 = Vector2::<i32> { x: 10, y: 12 };
    let v2 = Vector2::<i32> { x: 2, y: 3 };
    v1.div_assign(v2);
    assert_eq!(v1.x, 5);
    assert_eq!(v1.y, 4);
}

#[test]
fn vector2_index() {
    let v = Vector2 { x: 10, y: 20 };
    assert_eq!(v.get(0), 10);
    assert_eq!(v.get(1), 20);
}

#[test]
fn vector2_index_mut() {
    let mut v = Vector2 { x: 10, y: 20 };
    v.set(0, 60);
    v.set(1, 70);
    assert_eq!(v.get(0), 60);
    assert_eq!(v.get(1), 70);
}

#[test]
fn neg() {
    let v = Vector2 { x: 10, y: 20 };
    let v = -v;
    assert_eq!(v.get(0), -10);
    assert_eq!(v.get(1), -20);
}

#[test]
fn vector2_length_squared() {
    let v = Vector2 { x: 10, y: 20 };
    assert_eq!(v.length_squared(), 10 * 10 + 20 * 20);
}

#[test]
fn vector2_dot() {
    let v = Vector2 { x: 10, y: 20 };
    assert_eq!(v.dot([2_i64, 3]), 10 * 2 + 20 * 3);
}

#[test]
fn vector2_units_and_zero() {
    let ux = Vector2::<i32>::unit_x();
    let uy = Vector2::<i32>::unit_y();
    assert_eq!((ux.x, ux.y), (1, 0));
    assert_eq!((uy.x, uy.y), (0, 1));
    let z = Vector2::<i32>::zero();
    assert_eq!((z.x, z.y), (0, 0));
    assert!(z.is_zero());
    assert!(!ux.is_zero());
}

#[test]
fn vector2_cross_scalar() {
    let v1 = Vector2::<i32> { x: 1, y: 0 };
    let v2 = Vector2::<i32> { x: 0, y: 1 };
    assert_eq!(v1.cross(v2), 1);
    assert_eq!(v2.cross(v1), -1);
}
