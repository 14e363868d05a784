//! Vector types of fixed dimension.
//!
//! Dimensions one through four are backed by named-field structs; any
//! higher dimension up to 32 is backed by [`ArrayWrapper`]. The
//! [`Vector`] alias resolves a dimension number to the backing type at
//! compile time, so generic code can write "the vector type of
//! dimension `D`" uniformly.

pub mod array_wrapper;
pub mod model;
pub mod prelude;
pub mod swizzle;
pub mod traits;
pub mod vector1;
pub mod vector2;
pub mod vector3;
pub mod vector4;

pub use array_wrapper::ArrayWrapper;
pub use traits::{FloatElement, VectorElement, VectorLike};
pub use vector1::Vector1;
pub use vector2::Vector2;
pub use vector3::Vector3;
pub use vector4::Vector4;

use vstd::prelude::*;

verus! {

/// Holds, as an associated type, the concrete vector type for the
/// dimension `D`.
pub trait VectorTypeHolder<T: VectorElement, const D: usize> {
    /// The concrete vector type of dimension `D`.
    type Vector;
}

/// Resolves a dimension number to the concrete vector type backing it:
/// the named-field types for dimensions one through four, the
/// array-backed type for five through 32. A dimension outside that
/// range is rejected at compile time.
pub struct VectorTypeResolver<T: VectorElement, const D: usize> {
    _marker: core::marker::PhantomData<[T; D]>,
}

impl<T: VectorElement> VectorTypeHolder<T, 1> for VectorTypeResolver<T, 1> {
    type Vector = Vector1<T>;
}

impl<T: VectorElement> VectorTypeHolder<T, 2> for VectorTypeResolver<T, 2> {
    type Vector = Vector2<T>;
}

impl<T: VectorElement> VectorTypeHolder<T, 3> for VectorTypeResolver<T, 3> {
    type Vector = Vector3<T>;
}

impl<T: VectorElement> VectorTypeHolder<T, 4> for VectorTypeResolver<T, 4> {
    type Vector = Vector4<T>;
}

impl<T: VectorElement> VectorTypeHolder<T, 5> for VectorTypeResolver<T, 5> {
    type Vector = ArrayWrapper<T, 5>;
}

impl<T: VectorElement> VectorTypeHolder<T, 6> for VectorTypeResolver<T, 6> {
    type Vector = ArrayWrapper<T, 6>;
}

impl<T: VectorElement> VectorTypeHolder<T, 7> for VectorTypeResolver<T, 7> {
    type Vector = ArrayWrapper<T, 7>;
}

impl<T: VectorElement> VectorTypeHolder<T, 8> for VectorTypeResolver<T, 8> {
    type Vector = ArrayWrapper<T, 8>;
}

impl<T: VectorElement> VectorTypeHolder<T, 9> for VectorTypeResolver<T, 9> {
    type Vector = ArrayWrapper<T, 9>;
}

impl<T: VectorElement> VectorTypeHolder<T, 10> for VectorTypeResolver<T, 10> {
    type Vector = ArrayWrapper<T, 10>;
}

impl<T: VectorElement> VectorTypeHolder<T, 11> for VectorTypeResolver<T, 11> {
    type Vector = ArrayWrapper<T, 11>;
}

impl<T: VectorElement> VectorTypeHolder<T, 12> for VectorTypeResolver<T, 12> {
    type Vector = ArrayWrapper<T, 12>;
}

impl<T: VectorElement> VectorTypeHolder<T, 13> for VectorTypeResolver<T, 13> {
    type Vector = ArrayWrapper<T, 13>;
}

impl<T: VectorElement> VectorTypeHolder<T, 14> for VectorTypeResolver<T, 14> {
    type Vector = ArrayWrapper<T, 14>;
}

impl<T: VectorElement> VectorTypeHolder<T, 15> for VectorTypeResolver<T, 15> {
    type Vector = ArrayWrapper<T, 15>;
}

impl<T: VectorElement> VectorTypeHolder<T, 16> for VectorTypeResolver<T, 16> {
    type Vector = ArrayWrapper<T, 16>;
}

impl<T: VectorElement> VectorTypeHolder<T, 17> for VectorTypeResolver<T, 17> {
    type Vector = ArrayWrapper<T, 17>;
}

impl<T: VectorElement> VectorTypeHolder<T, 18> for VectorTypeResolver<T, 18> {
    type Vector = ArrayWrapper<T, 18>;
}

impl<T: VectorElement> VectorTypeHolder<T, 19> for VectorTypeResolver<T, 19> {
    type Vector = ArrayWrapper<T, 19>;
}

impl<T: VectorElement> VectorTypeHolder<T, 20> for VectorTypeResolver<T, 20> {
    type Vector = ArrayWrapper<T, 20>;
}

impl<T: VectorElement> VectorTypeHolder<T, 21> for VectorTypeResolver<T, 21> {
    type Vector = ArrayWrapper<T, 21>;
}

impl<T: VectorElement> VectorTypeHolder<T, 22> for VectorTypeResolver<T, 22> {
    type Vector = ArrayWrapper<T, 22>;
}

impl<T: VectorElement> VectorTypeHolder<T, 23> for VectorTypeResolver<T, 23> {
    type Vector = ArrayWrapper<T, 23>;
}

impl<T: VectorElement> VectorTypeHolder<T, 24> for VectorTypeResolver<T, 24> {
    type Vector = ArrayWrapper<T, 24>;
}

impl<T: VectorElement> VectorTypeHolder<T, 25> for VectorTypeResolver<T, 25> {
    type Vector = ArrayWrapper<T, 25>;
}

impl<T: VectorElement> VectorTypeHolder<T, 26> for VectorTypeResolver<T, 26> {
    type Vector = ArrayWrapper<T, 26>;
}

impl<T: VectorElement> VectorTypeHolder<T, 27> for VectorTypeResolver<T, 27> {
    type Vector = ArrayWrapper<T, 27>;
}

impl<T: VectorElement> VectorTypeHolder<T, 28> for VectorTypeResolver<T, 28> {
    type Vector = ArrayWrapper<T, 28>;
}

impl<T: VectorElement> VectorTypeHolder<T, 29> for VectorTypeResolver<T, 29> {
    type Vector = ArrayWrapper<T, 29>;
}

impl<T: VectorElement> VectorTypeHolder<T, 30> for VectorTypeResolver<T, 30> {
    type Vector = ArrayWrapper<T, 30>;
}

impl<T: VectorElement> VectorTypeHolder<T, 31> for VectorTypeResolver<T, 31> {
    type Vector = ArrayWrapper<T, 31>;
}

impl<T: VectorElement> VectorTypeHolder<T, 32> for VectorTypeResolver<T, 32> {
    type Vector = ArrayWrapper<T, 32>;
}

/// The vector type of element type `T` and dimension `D`; `D` must lie
/// between 1 and 32.
pub type Vector<T, const D: usize> = <VectorTypeResolver<T, D> as VectorTypeHolder<T, D>>::Vector;

} // verus!
