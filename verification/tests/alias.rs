use pyr::math::{ArrayWrapper, Matrix, Vector, Vector1, Vector2, Vector3, Vector4};

#[test]
fn vector_alias() {
    // Each assignment type-checks only because the alias resolves to
    // the named type of that dimension.
    let a1: Vector<i32, 1> = Vector1::new(1);
    let a2: Vector<i32, 2> = Vector2::new(1, 2);
    let a3: Vector<i32, 3> = Vector3::new(1, 2, 3);
    let a4: Vector<i32, 4> = Vector4::new(1, 2, 3, 4);
    let b1: Vector<i64, 1> = Vector1::new(1);
    let b2: Vector<i64, 2> = Vector2::new(1, 2);
    let b3: Vector<i64, 3> = Vector3::new(1, 2, 3);
    let b4: Vector<i64, 4> = Vector4::new(1, 2, 3, 4);
    let c5: Vector<i32, 5> = ArrayWrapper::<i32, 5>::from([1, 2, 3, 4, 5]);
    let c6: Vector<i32, 6> = ArrayWrapper::<i32, 6>::from([1, 2, 3, 4, 5, 6]);
    let c7: Vector<i32, 7> = ArrayWrapper::<i32, 7>::from([1, 2, 3, 4, 5, 6, 7]);
    let c8: Vector<i32, 8> = ArrayWrapper::<i32, 8>::from([1, 2, 3, 4, 5, 6, 7, 8]);
    assert_eq!(a1.x, 1);
    assert_eq!(a2.y, 2);
    assert_eq!(a3.z, 3);
    assert_eq!(a4.w, 4);
    assert_eq!(b1.x, 1);
    assert_eq!(b2.y, 2);
    assert_eq!(b3.z, 3);
    assert_eq!(b4.w, 4);
    assert_eq!(c5.elements[4], 5);
    assert_eq!(c6.elements[5], 6);
    assert_eq!(c7.elements[6], 7);
    assert_eq!(c8.elements[7], 8);
}

#[test]
fn mul_vector_matrix() {
    let v: Vector<i32, 3> = [3, 4, 5].into();
    let m: Matrix<i32, 3, 2> = [[1, 2], [3, 4], [5, 6]].into();
    assert_eq!(m.mul_vector(v), [40, 52].into());
}
