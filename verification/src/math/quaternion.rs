//! A quaternion, stored as its four components. The storage type only:
//! no rotation arithmetic is defined on it here.

use crate::math::vector::traits::FloatElement;
use vstd::prelude::*;

verus! {

/// A quaternion with components `x`, `y`, `z` and the real part `w`.
#[derive(Debug, Clone, Copy, PartialEq, Default)]
pub struct Quaternion<T: FloatElement> {
    pub x: T,
    pub y: T,
    pub z: T,
    pub w: T,
}

} // verus!
