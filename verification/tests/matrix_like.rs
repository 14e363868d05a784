use pyr::math::matrix::traits::{MatrixLike, SquareMatrix};

#[test]
fn get_array() {
    let a = [[1, 2, 3], [4, 5, 6]];
    assert_eq!(a.get(0, 0), 1);
    assert_eq!(a.get(0, 1), 2);
    assert_eq!(a.get(0, 2), 3);
    assert_eq!(a.get(1, 0), 4);
    assert_eq!(a.get(1, 1), 5);
    assert_eq!(a.get(1, 2), 6);
}

#[test]
fn set_array() {
    let mut a = [[0, 0, 0], [0, 0, 0]];
    a.set(0, 0, 1);
    a.set(0, 1, 2);
    a.set(0, 2, 3);
    a.set(1, 0, 4);
    a.set(1, 1, 5);
    a.set(1, 2, 6);
    assert_eq!(a.get(0, 0), 1);
    assert_eq!(a.get(0, 1), 2);
    assert_eq!(a.get(0, 2), 3);
    assert_eq!(a.get(1, 0), 4);
    assert_eq!(a.get(1, 1), 5);
    assert_eq!(a.get(1, 2), 6);
}

#[test]
fn identity_array() {
    let m: [[i32; 3]; 3] = SquareMatrix::<i32, 3>::identity();
    assert_eq!(m, [[1, 0, 0], [0, 1, 0], [0, 0, 1]]);
}
