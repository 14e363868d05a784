use pyr::math::vector::traits::VectorLike;
use pyr::math::ArrayWrapper;
use pyr::num::{One, Zero};

#[test]
fn array_wrapper_new() {
    let v = ArrayWrapper::<i32, 5>::new(1, 2, 3, 4, 5);
    assert_eq!(v.elements[0], 1);
    assert_eq!(v.elements[1], 2);
    assert_eq!(v.elements[2], 3);
    assert_eq!(v.elements[3], 4);
    assert_eq!(v.elements[4], 5);
}

#[test]
fn vector_like_get() {
    let v = ArrayWrapper::<i32, 5>::new(1, 2, 3, 4, 5);
    assert_eq!(v.get(0), 1);
    assert_eq!(v.get(1), 2);
    assert_eq!(v.get(2), 3);
    assert_eq!(v.get(3), 4);
    assert_eq!(v.get(4), 5);
}

#[test]
#[should_panic]
fn array_wrapper_vector_like_get_out_of_range() {
    let v = ArrayWrapper::<i32, 5>::zero();
    let _ = v.get(5);
}

#[test]
fn vector_like_set() {
    let mut v = ArrayWrapper::<i32, 5>::zero();
    v.set(0, 1);
    v.set(1, 2);
    v.set(2, 3);
    v.set(3, 4);
    v.set(4, 5);
    assert_eq!(v.get(0), 1);
    assert_eq!(v.get(1), 2);
    assert_eq!(v.get(2), 3);
    assert_eq!(v.get(3), 4);
    assert_eq!(v.get(4), 5);
}

#[test]
#[should_panic]
fn array_wrapper_vector_like_set_out_of_range() {
    let mut v = ArrayWrapper::<i32, 5>::zero();
    v.set(5, 0);
}

#[test]
fn array_wrapper_from_array() {
    let v = ArrayWrapper::<i32, 5>::from([1, 2, 3, 4, 5]);
    assert_eq!(v.elements, [1, 2, 3, 4, 5])
}

#[test]
fn from_tuple() {
    let v = ArrayWrapper::<i32, 5>::from((1, 2, 3, 4, 5));
    assert_eq!(v.elements, [1, 2, 3, 4, 5])
}

#[test]
fn array_wrapper_length_squared() {
    let v = ArrayWrapper::<i32, 5>::new(1, 2, 3, 4, 5);
    assert_eq!(v.length_squared(), 1 * 1 + 2 * 2 + 3 * 3 + 4 * 4 + 5 * 5);
}

#[test]
fn array_wrapper_dot() {
    let v1 = ArrayWrapper::<i32, 5>::new(1, 2, 3, 4, 5);
    let d = v1.dot([11, 12, 13, 14, 15]);
    assert_eq!(d, 1 * 11 + 2 * 12 + 3 * 13 + 4 * 14 + 5 * 15);
}

#[test]
fn array_wrapper_elementwise_ops() {
    let a = ArrayWrapper::<i32, 5>::new(10, 20, 30, 40, 50);
    let b = ArrayWrapper::<i32, 5>::new(1, 2, 3, 4, 5);
    assert_eq!(a.add(b), ArrayWrapper::from([11, 22, 33, 44, 55]));
    assert_eq!(a.sub(b), ArrayWrapper::from([9, 18, 27, 36, 45]));
    assert_eq!(a.mul(b), ArrayWrapper::from([10, 40, 90, 160, 250]));
    assert_eq!(a.div(b), ArrayWrapper::from([10, 10, 10, 10, 10]));
    let mut v = a;
    v.add_assign(b);
    assert_eq!(v, a.add(b));
    let mut v = a;
    v.sub_assign(b);
    assert_eq!(v, a.sub(b));
    let mut v = a;
    v.mul_assign(b);
    assert_eq!(v, a.mul(b));
    let mut v = a;
    v.div_assign(b);
    assert_eq!(v, a.div(b));
}

#[test]
fn array_wrapper_scalar_ops_and_neg() {
    let a = ArrayWrapper::<i32, 3>::new(3, -6, 9);
    assert_eq!(a.mul_scalar(2), ArrayWrapper::from([6, -12, 18]));
    assert_eq!(a.div_scalar(3), ArrayWrapper::from([1, -2, 3]));
    assert_eq!(a.neg(), ArrayWrapper::from([-3, 6, -9]));
    let mut v = a;
    v.mul_scalar_assign(2);
    assert_eq!(v, a.mul_scalar(2));
    let mut v = a;
    v.div_scalar_assign(3);
    assert_eq!(v, a.div_scalar(3));
    assert_eq!(a.add(a.neg()), ArrayWrapper::from([0, 0, 0]));
}

#[test]
fn array_wrapper_one_and_is_zero() {
    let o = ArrayWrapper::<i32, 3>::one();
    assert_eq!(o, ArrayWrapper::from([1, 1, 1]));
    assert!(!o.is_zero());
    assert!(ArrayWrapper::<i32, 3>::zero().is_zero());
}
