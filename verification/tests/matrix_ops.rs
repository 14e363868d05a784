use pyr::math::matrix::traits::MatrixLike;
use pyr::math::{Matrix, Vector2};

#[test]
fn matrix_add() {
    let m1: Matrix<i32, 2, 3> = [[1, 2, 3], [4, 5, 6]].into();
    let m2: Matrix<i32, 2, 3> = [[11, 12, 13], [14, 15, 16]].into();
    assert_eq!(m1.add(m2), [[12, 14, 16], [18, 20, 22]].into());
}

#[test]
fn matrix_sub() {
    let m1: Matrix<i32, 2, 3> = [[3, 5, 7], [11, 13, 17]].into();
    let m2: Matrix<i32, 2, 3> = [[1, 2, 3], [3, 6, 8]].into();
    assert_eq!(m1.sub(m2), [[2, 3, 4], [8, 7, 9]].into());
}

#[test]
fn mul1() {
    let m1: Matrix<i32, 1, 2> = [[3, 4]].into();
    let m2: Matrix<i32, 2, 1> = [[6], [8]].into();
    assert_eq!(m1.mul(m2), [[50]].into());
}

#[test]
fn mul2() {
    let m1: Matrix<i32, 2, 1> = [[1], [2]].into();
    let m2: Matrix<i32, 1, 3> = [[3, 4, 5]].into();
    assert_eq!(m1.mul(m2), [[3, 4, 5], [6, 8, 10]].into());
}

#[test]
fn mul3() {
    let m1: Matrix<i32, 2, 2> = [[1, 2], [3, 4]].into();
    let m2: Matrix<i32, 2, 2> = [[5, 6], [7, 8]].into();
    assert_eq!(m1.mul(m2), [[19, 22], [43, 50]].into());
}

#[test]
fn mul4() {
    let m1: Matrix<i32, 3, 2> = [[0, 1], [2, 3], [4, 5]].into();
    let m2: Matrix<i32, 2, 4> = [[0, 1, 2, 3], [4, 5, 6, 7]].into();
    assert_eq!(
        m1.mul(m2),
        [[4, 5, 6, 7], [12, 17, 22, 27], [20, 29, 38, 47]].into()
    );
}

#[test]
fn matrix_like_get() {
    let m = Matrix::<i32, 2, 3>::new([[1, 2, 3], [4, 5, 6]]);
    assert_eq!(m.elements[0][0], m.get(0, 0));
}

#[test]
fn new_from_vector_array() {
    let m1 = Matrix::new([Vector2::new(1, 2), Vector2::new(3, 4), Vector2::new(5, 6)]);
    let m2 = Matrix::<i32, 3, 2> {
        elements: [[1, 2], [3, 4], [5, 6]],
    };
    assert_eq!(m1, m2);
}

#[test]
fn new_from_array() {
    let m1 = Matrix::new([[1, 2], [3, 4], [5, 6]]);
    let m2 = Matrix::<i32, 3, 2> {
        elements: [[1, 2], [3, 4], [5, 6]],
    };
    assert_eq!(m1, m2);
}

#[test]
fn from_vector_array() {
    let m1 = Matrix::from([Vector2::new(1, 2), Vector2::new(3, 4), Vector2::new(5, 6)]);
    let m2 = Matrix::<i32, 3, 2> {
        elements: [[1, 2], [3, 4], [5, 6]],
    };
    assert_eq!(m1, m2);
}

#[test]
fn matrix_from_array() {
    let m1 = Matrix::<i32, 3, 2>::from([[1, 2], [3, 4], [5, 6]]);
    let m2 = Matrix::<i32, 3, 2> {
        elements: [[1, 2], [3, 4], [5, 6]],
    };
    assert_eq!(m1, m2);
}

#[test]
fn row() {
    let m: Matrix<i32, 2, 3> = [[1, 2, 3], [4, 5, 6]].into();
    assert_eq!(m.row(0), [1, 4]);
    assert_eq!(m.row(1), [2, 5]);
    assert_eq!(m.row(2), [3, 6]);
}

#[test]
#[should_panic]
fn row_out_of_range() {
    let m: Matrix<i32, 2, 3> = [[1, 2, 3], [4, 5, 6]].into();
    let _ = m.row(3);
}

#[test]
fn col() {
    let m: Matrix<i32, 2, 3> = [[1, 2, 3], [4, 5, 6]].into();
    assert_eq!(m.col(0), [1, 2, 3]);
    assert_eq!(m.col(1), [4, 5, 6]);
}

#[test]
#[should_panic]
fn col_out_of_range() {
    let m: Matrix<i32, 2, 3> = [[1, 2, 3], [4, 5, 6]].into();
    let _ = m.col(3);
}
