use pyr::math::vector::traits::VectorLike;
use pyr::math::{ArrayWrapper, Matrix, Vector2, Vector3, Vector4};
use pyr::num::Zero;

#[test]
fn add_zero_is_identity() {
    let v2 = Vector2::new(3, -7);
    assert_eq!(v2.add(Vector2::<i32>::zero()), v2);
    let v3 = Vector3::new(3, -7, 11);
    assert_eq!(v3.add(Vector3::<i32>::zero()), v3);
    let v4 = Vector4::new(3, -7, 11, -13);
    assert_eq!(v4.add(Vector4::<i32>::zero()), v4);
}

#[test]
fn sub_self_is_zero() {
    let v2 = Vector2::new(3, -7);
    assert_eq!(v2.sub(v2), Vector2::<i32>::zero());
    let v3 = Vector3::new(3, -7, 11);
    assert_eq!(v3.sub(v3), Vector3::<i32>::zero());
    let v4 = Vector4::new(3, -7, 11, -13);
    assert_eq!(v4.sub(v4), Vector4::<i32>::zero());
}

#[test]
fn add_neg_is_zero() {
    let v3 = Vector3::new(3, -7, 11);
    assert_eq!(v3.add(v3.neg()), Vector3::<i32>::zero());
}

#[test]
fn add_commutative() {
    let a2 = Vector2::new(1, -2);
    let b2 = Vector2::new(5, 9);
    assert_eq!(a2.add(b2), b2.add(a2));
    let a3 = Vector3::new(1, -2, 4);
    let b3 = Vector3::new(5, 9, -3);
    assert_eq!(a3.add(b3), b3.add(a3));
    let a4 = Vector4::new(1, -2, 4, 6);
    let b4 = Vector4::new(5, 9, -3, 2);
    assert_eq!(a4.add(b4), b4.add(a4));
}

#[test]
fn add_associative() {
    let a = Vector3::new(1, -2, 4);
    let b = Vector3::new(5, 9, -3);
    let c = Vector3::new(-7, 2, 8);
    assert_eq!(a.add(b).add(c), a.add(b.add(c)));
    let a2 = Vector2::new(1, -2);
    let b2 = Vector2::new(5, 9);
    let c2 = Vector2::new(-7, 2);
    assert_eq!(a2.add(b2).add(c2), a2.add(b2.add(c2)));
    let a4 = Vector4::new(1, -2, 4, 6);
    let b4 = Vector4::new(5, 9, -3, 2);
    let c4 = Vector4::new(-7, 2, 8, -1);
    assert_eq!(a4.add(b4).add(c4), a4.add(b4.add(c4)));
}

#[test]
fn scale_then_divide_restores() {
    let v = Vector3::new(7, -9, 11);
    let s = 3;
    assert_eq!(v.mul_scalar(s).div_scalar(s), v);
    let s = -4;
    assert_eq!(v.mul_scalar(s).div_scalar(s), v);
}

#[test]
fn length_squared_equals_dot_with_self() {
    let v = Vector3::new(2, -3, 6);
    assert_eq!(v.length_squared(), v.dot(v));
    let w = ArrayWrapper::<i64, 5>::new(1, -2, 3, -4, 5);
    assert_eq!(w.length_squared(), w.dot(w));
}

#[test]
fn length_squared_zero_only_at_zero() {
    let z = Vector3::<i64>::zero();
    assert_eq!(z.length_squared(), 0);
    let v = Vector3::new(0, 1, 0_i64);
    assert!(v.length_squared() > 0);
}

#[test]
fn cross_anticommutative() {
    let v1 = Vector3::new(2, -5, 11_i64);
    let v2 = Vector3::new(-3, 7, 13_i64);
    let c1 = v1.cross(v2);
    let c2 = v2.cross(v1);
    assert_eq!(c1, c2.neg());
}

#[test]
fn cross_of_axes() {
    let x = Vector3::new(1, 0, 0_i64);
    let y = Vector3::new(0, 1, 0_i64);
    let z = Vector3::new(0, 0, 1_i64);
    assert_eq!(x.cross(y), z);
    assert_eq!(y.cross(z), x);
    assert_eq!(z.cross(x), y);
}

#[test]
fn swizzle_consistency() {
    let v = Vector4::new(1, 2, 3, 4);
    assert_eq!(v.xyzw(), v);
    assert_eq!(v.wzyx(), Vector4::new(4, 3, 2, 1));
    assert_eq!(v.xx(), Vector2::new(1, 1));
}

#[test]
fn matrix_product_associative() {
    let a: Matrix<i64, 2, 3> = [[1, -2, 3], [4, 0, -5]].into();
    let b: Matrix<i64, 3, 2> = [[2, 7], [-1, 3], [5, 4]].into();
    let c: Matrix<i64, 2, 4> = [[1, 0, 2, -3], [4, -2, 1, 6]].into();
    assert_eq!(a.mul(b).mul(c), a.mul(b.mul(c)));
}

#[test]
fn matrix_product_regression_2x2() {
    let m1: Matrix<i32, 2, 2> = [[1, 2], [3, 4]].into();
    let m2: Matrix<i32, 2, 2> = [[5, 6], [7, 8]].into();
    assert_eq!(m1.mul(m2), [[19, 22], [43, 50]].into());
}

#[test]
fn roundtrip_array_constructors() {
    let arr = [7, -3, 9, 4, 0];
    let v = ArrayWrapper::<i32, 5>::from(arr);
    let mut i: usize = 0;
    while i < 5 {
        assert_eq!(v.get(i), arr[i]);
        i += 1;
    }
    let from_tuple = ArrayWrapper::<i32, 5>::from((7, -3, 9, 4, 0));
    let from_new = ArrayWrapper::<i32, 5>::new(7, -3, 9, 4, 0);
    assert_eq!(v, from_tuple);
    assert_eq!(v, from_new);
}

#[test]
fn roundtrip_named_constructors() {
    let v = Vector3::new(1, 2, 3);
    assert_eq!(v, Vector3::from([1, 2, 3]));
    assert_eq!(v, Vector3::from((1, 2, 3)));
    assert_eq!(v.get(0), 1);
    assert_eq!(v.get(1), 2);
    assert_eq!(v.get(2), 3);
}

#[test]
fn largest_dimension_roundtrip() {
    let mut arr = [0_i32; 32];
    let mut i: usize = 0;
    while i < 32 {
        arr[i] = (i as i32) - 16;
        i += 1;
    }
    let v = pyr::math::Vector::<i32, 32>::from(arr);
    let mut i: usize = 0;
    while i < 32 {
        assert_eq!(v.get(i), arr[i]);
        i += 1;
    }
}

#[test]
fn dimension_one_ops() {
    let a = pyr::math::Vector1::new(6);
    let b = pyr::math::Vector1::new(-2);
    assert_eq!(a.add(b), pyr::math::Vector1::new(4));
    assert_eq!(a.mul(b), pyr::math::Vector1::new(-12));
    assert_eq!(a.div(b), pyr::math::Vector1::new(-3));
    assert_eq!(a.length_squared(), 36);
}

#[test]
fn dot_free_function() {
    let a = Vector3::new(1, 2, 3);
    let b = Vector3::new(4, -5, 6);
    assert_eq!(pyr::math::vector::prelude::dot(a, b), 1 * 4 + 2 * (-5) + 3 * 6);
}

#[test]
fn truncating_division_toward_zero() {
    let v = Vector2::new(-7, 7);
    let r = v.div_scalar(2);
    assert_eq!(r, Vector2::new(-3, 3));
}

#[test]
fn matrix_scalar_ops() {
    let m: Matrix<i32, 2, 3> = [[1, 2, 3], [4, 5, 6]].into();
    assert_eq!(m.mul_scalar(2), [[2, 4, 6], [8, 10, 12]].into());
    assert_eq!(m.mul_scalar(2).div_scalar(2), m);
}

#[test]
fn matrix_zero_and_default() {
    let z = Matrix::<i32, 3, 2>::zero();
    assert_eq!(z, Matrix::<i32, 3, 2> { elements: [[0, 0], [0, 0], [0, 0]] });
    assert!(z.is_zero());
    let d: Matrix<i32, 3, 2> = Default::default();
    assert_eq!(d, z);
}

#[test]
fn from_lower_dimensions() {
    let v1 = pyr::math::Vector1::new(1);
    let v3 = Vector3::from_v1_with_yz(v1, 2, 3);
    assert_eq!(v3, Vector3::new(1, 2, 3));
    let v2 = Vector2::new(1, 2);
    assert_eq!(Vector3::from_v2_with_z(v2, 3), Vector3::new(1, 2, 3));
    assert_eq!(Vector4::from_v1_with_yzw(v1, 2, 3, 4), Vector4::new(1, 2, 3, 4));
    assert_eq!(Vector4::from_v2_with_zw(v2, 3, 4), Vector4::new(1, 2, 3, 4));
    assert_eq!(Vector4::from_v3_with_w(v3, 4), Vector4::new(1, 2, 3, 4));
}

#[test]
fn color32_roundtrip() {
    let c = pyr::graphics::color::Color32 { r: 1, g: 2, b: 3, a: 255 };
    assert_eq!(c, pyr::graphics::color::Color32 { r: 1, g: 2, b: 3, a: 255 });
    assert_ne!(c, pyr::graphics::color::Color32::default());
}

#[test]
fn operator_forms_match_methods() {
    let v = Vector2::new(10, 20);
    let w = Vector2::new(2, 5);
    assert_eq!(v + w, v.add(w));
    assert_eq!(v - w, v.sub(w));
    assert_eq!(v * w, v.mul(w));
    assert_eq!(v / w, v.div(w));
    assert_eq!(v * 3, v.mul_scalar(3));
    assert_eq!(v / 2, v.div_scalar(2));
    assert_eq!(-v, v.neg());
    let a = Vector3::new(1, 2, 3);
    let b = Vector3::new(4, 5, 6);
    assert_eq!(a + b, Vector3::new(5, 7, 9));
    assert_eq!(-a, Vector3::new(-1, -2, -3));
    let p = Vector4::new(1, 2, 3, 4);
    let q = Vector4::new(5, 6, 7, 8);
    assert_eq!(p + q, Vector4::new(6, 8, 10, 12));
    let s = pyr::math::Vector1::new(9);
    let t = pyr::math::Vector1::new(3);
    assert_eq!(s / t, pyr::math::Vector1::new(3));
}
