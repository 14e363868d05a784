use pyr::math::vector::traits::VectorLike;

#[test]
fn vector_like_get_tuple_1() {
    let a = (1,);
    assert_eq!(a.get(0), 1);
}

#[test]
fn vector_like_set_tuple_1() {
    let mut a = (0,);
    assert_eq!(0, 0);
    a.set(0, 1);
    assert_eq!(a.get(0), 1);
}

#[test]
fn vector_like_get_tuple_2() {
    let a = (1, 2);
    assert_eq!(a.get(0), 1);
    assert_eq!(a.get(1), 2);
}

#[test]
fn vector_like_set_tuple_2() {
    let mut a = (0, 0);
    assert_eq!(a.get(0), 0);
    assert_eq!(a.get(1), 0);
    a.set(0, 10);
    a.set(1, 20);
    assert_eq!(a.get(0), 10);
    assert_eq!(a.get(1), 20);
}

#[test]
fn vector_like_get_tuple_3() {
    let a = (1, 2, 3);
    assert_eq!(a.get(0), 1);
    assert_eq!(a.get(1), 2);
    assert_eq!(a.get(2), 3);
}

#[test]
fn vector_like_set_tuple_3() {
    let mut a = (0, 0, 0);
    assert_eq!(a.get(0), 0);
    assert_eq!(a.get(1), 0);
    assert_eq!(a.get(2), 0);
    a.set(0, 10);
    a.set(1, 20);
    a.set(2, 30);
    assert_eq!(a.get(0), 10);
    assert_eq!(a.get(1), 20);
    assert_eq!(a.get(2), 30);
}

#[test]
fn vector_like_get_array_1() {
    let a = [10];
    assert_eq!(VectorLike::get(&a, 0), 10);
}

#[test]
fn vector_like_set_array_1() {
    let mut a = [0];
    assert_eq!(VectorLike::get(&a, 0), 0);
    VectorLike::set(&mut a, 0, 10);
    assert_eq!(VectorLike::get(&a, 0), 10);
}

#[test]
fn vector_like_get_array_2() {
    let a = [10, 11];
    assert_eq!(VectorLike::get(&a, 0), 10);
    assert_eq!(VectorLike::get(&a, 1), 11);
}

#[test]
fn vector_like_set_array_2() {
    let mut a = [0, 0];
    assert_eq!(VectorLike::get(&a, 0), 0);
    assert_eq!(VectorLike::get(&a, 1), 0);
    VectorLike::set(&mut a, 0, 10);
    VectorLike::set(&mut a, 1, 20);
    assert_eq!(VectorLike::get(&a, 0), 10);
    assert_eq!(VectorLike::get(&a, 1), 20);
}

#[test]
fn vector_like_get_array_3() {
    let a = [10, 11, 12];
    assert_eq!(VectorLike::get(&a, 0), 10);
    assert_eq!(VectorLike::get(&a, 1), 11);
    assert_eq!(VectorLike::get(&a, 2), 12);
}

#[test]
fn vector_like_set_array_3() {
    let mut a = [0, 0, 0];
    assert_eq!(VectorLike::get(&a, 0), 0);
    assert_eq!(VectorLike::get(&a, 1), 0);
    assert_eq!(VectorLike::get(&a, 2), 0);
    VectorLike::set(&mut a, 0, 10);
    VectorLike::set(&mut a, 1, 20);
    VectorLike::set(&mut a, 2, 30);
    assert_eq!(VectorLike::get(&a, 0), 10);
    assert_eq!(VectorLike::get(&a, 1), 20);
    assert_eq!(VectorLike::get(&a, 2), 30);
}

#[test]
fn vector_like_get_array_4() {
    let a = [10, 11, 12, 13];
    assert_eq!(VectorLike::get(&a, 0), 10);
    assert_eq!(VectorLike::get(&a, 1), 11);
    assert_eq!(VectorLike::get(&a, 2), 12);
    assert_eq!(VectorLike::get(&a, 3), 13);
}

#[test]
fn vector_like_set_array_4() {
    let mut a = [0, 0, 0, 0];
    assert_eq!(VectorLike::get(&a, 0), 0);
    assert_eq!(VectorLike::get(&a, 1), 0);
    assert_eq!(VectorLike::get(&a, 2), 0);
    assert_eq!(VectorLike::get(&a, 3), 0);
    VectorLike::set(&mut a, 0, 10);
    VectorLike::set(&mut a, 1, 20);
    VectorLike::set(&mut a, 2, 30);
    VectorLike::set(&mut a, 3, 40);
    assert_eq!(VectorLike::get(&a, 0), 10);
    assert_eq!(VectorLike::get(&a, 1), 20);
    assert_eq!(VectorLike::get(&a, 2), 30);
    assert_eq!(VectorLike::get(&a, 3), 40);
}

#[test]
fn vector_like_get_array_5() {
    let a = [10, 11, 12, 13, 14];
    assert_eq!(VectorLike::get(&a, 0), 10);
    assert_eq!(VectorLike::get(&a, 1), 11);
    assert_eq!(VectorLike::get(&a, 2), 12);
    assert_eq!(VectorLike::get(&a, 3), 13);
    assert_eq!(VectorLike::get(&a, 4), 14);
}

#[test]
fn vector_like_set_array_5() {
    let mut a = [0, 0, 0, 0, 0];
    assert_eq!(VectorLike::get(&a, 0), 0);
    assert_eq!(VectorLike::get(&a, 1), 0);
    assert_eq!(VectorLike::get(&a, 2), 0);
    assert_eq!(VectorLike::get(&a, 3), 0);
    assert_eq!(VectorLike::get(&a, 4), 0);
    VectorLike::set(&mut a, 0, 10);
    VectorLike::set(&mut a, 1, 20);
    VectorLike::set(&mut a, 2, 30);
    VectorLike::set(&mut a, 3, 40);
    VectorLike::set(&mut a, 4, 50);
    assert_eq!(VectorLike::get(&a, 0), 10);
    assert_eq!(VectorLike::get(&a, 1), 20);
    assert_eq!(VectorLike::get(&a, 2), 30);
    assert_eq!(VectorLike::get(&a, 3), 40);
    assert_eq!(VectorLike::get(&a, 4), 50);
}
