//! The mathematical core: vectors and matrices.

pub mod matrix;
pub mod quaternion;
pub mod vector;

pub use self::matrix::{Matrix, MatrixElement, MatrixLike, SquareMatrix};
pub use self::quaternion::Quaternion;
pub use self::vector::{
    ArrayWrapper, FloatElement, Vector, Vector1, Vector2, Vector3, Vector4, VectorElement,
    VectorLike, VectorTypeHolder, VectorTypeResolver,
};
