use pyr::math::vector::traits::VectorLike;
use pyr::math::Vector;
use pyr::num::Zero;

#[test]
fn ops_add() {
    let v1 = Vector::<i32, 3>::new(1, 2, 4);
    let v2 = Vector::<i32, 3>::new(5, 3, 7);
    assert_eq!(v1 + v2, [6, 5, 11].into());
}

#[test]
fn ops_sub() {
    let v1 = Vector::<i32, 3>::new(1, 2, 4);
    let v2 = Vector::<i32, 3>::new(5, 3, 7);
    assert_eq!(v1 - v2, [-4, -1, -3].into());
}

#[test]
fn ops_mul() {
    let v1 = Vector::<i32, 3>::new(1, 2, 4);
    let v2 = Vector::<i32, 3>::new(5, 3, 7);
    assert_eq!(v1 * v2, [5, 6, 28].into());
}

#[test]
fn ops_add_assign() {
    let v1 = Vector::<i32, 3>::new(1, 2, 4);
    let v2 = Vector::<i32, 3>::new(5, 3, 7);
    let mut v = v1;
    v.add_assign(v2);
    assert_eq!(v, v1 + v2);
}

#[test]
fn ops_sub_assign() {
    let v1 = Vector::<i32, 3>::new(1, 2, 4);
    let v2 = Vector::<i32, 3>::new(5, 3, 7);
    let mut v = v1;
    v.sub_assign(v2);
    assert_eq!(v, v1 - v2);
}

#[test]
fn ops_mul_assign() {
    let v1 = Vector::<i32, 3>::new(1, 2, 4);
    let v2 = Vector::<i32, 3>::new(5, 3, 7);
    let mut v = v1;
    v.mul_assign(v2);
    assert_eq!(v, v1 * v2);
}

#[test]
fn ops_index() {
    let v = Vector::<i32, 3>::new(2, 3, 4);
    assert_eq!(v.get(0), 2);
    assert_eq!(v.get(1), 3);
    assert_eq!(v.get(2), 4);
}

#[test]
fn ops_index_mut() {
    let mut v = Vector::<i32, 3>::zero();
    v.set(0, 2);
    v.set(1, 3);
    v.set(2, 4);
    assert_eq!(v.get(0), 2);
    assert_eq!(v.get(1), 3);
    assert_eq!(v.get(2), 4);
}
