//! Fixed-size vector and matrix types over a generic numeric element.
//!
//! The library provides named-field vectors for dimensions one through
//! four, an array-backed vector for higher dimensions, a compile-time
//! resolver from a dimension number to the backing type, and a matrix
//! type, together with the arithmetic and geometric operations on
//! them. Every operation carries a contract over a mathematical model:
//! a vector is modelled by the sequence of the integers of its
//! elements, a matrix by the sequence of its rows.

pub mod graphics;
pub mod intersect;
pub mod math;
pub mod num;
